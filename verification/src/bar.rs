//! PCI Base Address Register (BAR) region modeling: the tagged union of
//! IO / 32-bit memory / 64-bit memory address ranges a device advertises,
//! with constructors that validate overflow and alignment.

use vstd::prelude::*;

use crate::pci_config::{validate_dword_alignment, Error as ConfigSpaceAccessError};

verus! {

#[derive(Debug)]
/// Error type for PCI Base Address Register accesses.
pub enum Error {
    /// Invalid access in the configuration space.
    Access(ConfigSpaceAccessError),
    /// Memory region defined by the BAR address and length is invalid.
    BarAddressInvalid(u64, u64),
}

impl From<ConfigSpaceAccessError> for Error {
    fn from(e: ConfigSpaceAccessError) -> (r: Self) {
        Error::Access(e)
    }
}

impl vstd::std_specs::convert::FromSpecImpl<ConfigSpaceAccessError> for Error {
    open spec fn obeys_from_spec() -> bool {
        true
    }

    open spec fn from_spec(e: ConfigSpaceAccessError) -> Self {
        Error::Access(e)
    }
}

#[derive(Copy, Clone)]
/// Enum representing the "prefetchable" state masks of BARs (bit 3 in the register).
pub enum PciBarPrefetchable {
    /// Non-prefetchable BARs have bit 3 set to 0.
    NotPrefetchable,
    /// Prefetchable BARs have bit 3 set to 1.
    Prefetchable,
}

impl PciBarPrefetchable {
    /// The mask this state contributes to bit 3 of a BAR register.
    pub open spec fn spec_value(self) -> u8 {
        match self {
            PciBarPrefetchable::NotPrefetchable => 0x00,
            PciBarPrefetchable::Prefetchable => 0x08,
        }
    }

    /// Represent the prefetchable state as the mask it sets in a BAR
    /// register: 0 when not prefetchable, 0x08 (bit 3) when prefetchable.
    pub fn value(self) -> (r: u8)
        ensures
            r == self.spec_value(),
    {
        match self {
            PciBarPrefetchable::NotPrefetchable => 0x00,
            PciBarPrefetchable::Prefetchable => 0x08,
        }
    }
}

#[derive(Copy, Clone, PartialEq, Eq, Structural)]
/// PCI BAR memory region abstraction.
pub enum PciBarRegion {
    /// Represents a 32-bit IO space region.
    Io {
        /// Start address of the 32-bit IO space region.
        addr: u32,
        /// Length of the region, in bytes.
        len: u32,
    },
    /// Represents a 32-bit memory mapped region.
    Memory32Bit {
        /// Start address of the 32-bit memory mapped region.
        addr: u32,
        /// Length of the region, in bytes.
        len: u32,
    },
    /// Represents a 64-bit memory mapped region.
    Memory64Bit {
        /// Start address of the 64-bit memory mapped region.
        addr: u64,
        /// Length of the region, in bytes.
        len: u64,
    },
}

impl PciBarRegion {
    /// Describe an IO space BAR region.
    ///
    /// Succeeds exactly when `addr + len` fits in 32 bits and `addr` is
    /// dword aligned, and then returns the `Io` region holding the inputs
    /// unchanged. An overflowing range is reported before alignment is
    /// looked at, with both operands widened to 64 bits.
    pub fn new_io_region(addr: u32, len: u32) -> (r: Result<Self, Error>)
        ensures
            addr + len > u32::MAX ==> r == Err::<Self, Error>(
                Error::BarAddressInvalid(addr as u64, len as u64),
            ),
            addr + len <= u32::MAX && addr % 4 != 0 ==> r == Err::<Self, Error>(
                Error::Access(ConfigSpaceAccessError::UnalignedAccess),
            ),
            addr + len <= u32::MAX && addr % 4 == 0 ==> r == Ok::<Self, Error>(
                (PciBarRegion::Io { addr, len }),
            ),
    {
        if len > u32::MAX - addr {
            return Err(Error::BarAddressInvalid(addr as u64, len as u64));
        }
        match validate_dword_alignment(addr as usize) {
            Err(e) => Err(Error::Access(e)),
            Ok(()) => Ok(PciBarRegion::Io { addr, len }),
        }
    }

    /// Describe a memory mapped 32bit BAR region.
    ///
    /// Succeeds exactly when `addr + len` fits in 32 bits and `addr` is
    /// dword aligned, and then returns the `Memory32Bit` region holding the
    /// inputs unchanged. An overflowing range is reported before alignment
    /// is looked at, with both operands widened to 64 bits.
    pub fn new_32bit_mem_region(addr: u32, len: u32) -> (r: Result<Self, Error>)
        ensures
            addr + len > u32::MAX ==> r == Err::<Self, Error>(
                Error::BarAddressInvalid(addr as u64, len as u64),
            ),
            addr + len <= u32::MAX && addr % 4 != 0 ==> r == Err::<Self, Error>(
                Error::Access(ConfigSpaceAccessError::UnalignedAccess),
            ),
            addr + len <= u32::MAX && addr % 4 == 0 ==> r == Ok::<Self, Error>(
                (PciBarRegion::Memory32Bit { addr, len }),
            ),
    {
        if len > u32::MAX - addr {
            return Err(Error::BarAddressInvalid(addr as u64, len as u64));
        }
        match validate_dword_alignment(addr as usize) {
            Err(e) => Err(Error::Access(e)),
            Ok(()) => Ok(PciBarRegion::Memory32Bit { addr, len }),
        }
    }

    /// Describe a memory mapped 64bit BAR region.
    ///
    /// Succeeds exactly when `addr + len` fits in 64 bits and `addr` is
    /// dword aligned, and then returns the `Memory64Bit` region holding the
    /// inputs unchanged. An overflowing range is reported before alignment
    /// is looked at.
    pub fn new_64bit_mem_region(addr: u64, len: u64) -> (r: Result<Self, Error>)
        ensures
            addr + len > u64::MAX ==> r == Err::<Self, Error>(
                Error::BarAddressInvalid(addr, len),
            ),
            addr + len <= u64::MAX && addr % 4 != 0 ==> r == Err::<Self, Error>(
                Error::Access(ConfigSpaceAccessError::UnalignedAccess),
            ),
            addr + len <= u64::MAX && addr % 4 == 0 ==> r == Ok::<Self, Error>(
                (PciBarRegion::Memory64Bit { addr, len }),
            ),
    {
        if len > u64::MAX - addr {
            return Err(Error::BarAddressInvalid(addr, len));
        }
        // The alignment of an address depends only on its low two bits, so
        // the check is made on `addr % 4`, which always fits in a `usize`.
        match validate_dword_alignment((addr % 4) as usize) {
            Err(e) => Err(Error::Access(e)),
            Ok(()) => Ok(PciBarRegion::Memory64Bit { addr, len }),
        }
    }
}

/// Law: regions are compared structurally, so two regions of different
/// variant tags are unequal even when they hold identical address and
/// length values.
pub proof fn lemma_region_kind_distinguishes(addr: u32, len: u32)
    ensures
        (PciBarRegion::Io { addr, len }) != (PciBarRegion::Memory32Bit { addr, len }),
        (PciBarRegion::Io { addr, len }) != (PciBarRegion::Memory64Bit {
            addr: addr as u64,
            len: len as u64,
        }),
        (PciBarRegion::Memory32Bit { addr, len }) != (PciBarRegion::Memory64Bit {
            addr: addr as u64,
            len: len as u64,
        }),
{
}

#[derive(Copy, Clone)]
/// Configuration of a Base Address Register.
pub struct PciBarConfig {
    /// Index of the BAR.
    pub index: usize,
    /// Region referenced by BAR.
    pub region: PciBarRegion,
    /// Prefetchable status.
    pub prefetchable: PciBarPrefetchable,
}

#[derive(Copy, Clone)]
/// Configuration of a ROM Base Address Register.
pub struct PciRomBarConfig {
    /// Region referenced by BAR.
    pub region: PciBarRegion,
    /// Enable bit.
    pub enable: bool,
}

} // verus!
