//! Common PCI configuration space functionality shared by every header type:
//! access-width translation over a register-granularity backing store, the
//! named fields of the common header, and the classification taxonomies.

use vstd::prelude::*;

verus! {

/// Represents (byte offset, len) for a capability in the config space.
pub type CapabilityRegion = (usize, usize);

// PCI common configuration constants.
/// Length of PCI configuration space, in bytes.
pub const PCI_CONFIGURATION_SPACE_SIZE: usize = 256;
/// Length of PCIe configuration space, in bytes.
pub const PCIE_CONFIGURATION_SPACE_SIZE: usize = 4096;
/// Number of PCIe configuration space registers.
pub const NUM_CONFIGURATION_REGISTERS: usize = 1024;
/// Offset of vendor ID in the PCI configuration space.
pub const VENDOR_ID_OFFSET: usize = 0x00;
/// Offset of device ID in the PCI configuration space.
pub const DEVICE_ID_OFFSET: usize = 0x02;
/// Offset of command in the PCI configuration space.
pub const COMMAND_OFFSET: usize = 0x04;
/// Offset of status in the PCI configuration space.
pub const STATUS_OFFSET: usize = 0x06;
/// Offset of revision ID in the PCI configuration space.
pub const REVISION_ID_OFFSET: usize = 0x08;
/// Offset of programming interface in the PCI configuration space.
pub const PROG_IF_OFFSET: usize = 0x09;
/// Offset of subclass in the PCI configuration space.
pub const SUBCLASS_OFFSET: usize = 0x0A;
/// Offset of class code in the PCI configuration space.
pub const CLASS_CODE_OFFSET: usize = 0x0B;
/// Offset of cache line size in the PCI configuration space.
pub const CACHE_LINE_SIZE_OFFSET: usize = 0x0C;
/// Offset of latency timer in the PCI configuration space.
pub const LATENCY_TIMER_OFFSET: usize = 0x0D;
/// Offset of header type in the PCI configuration space.
pub const HEADER_TYPE_OFFSET: usize = 0x0E;
/// Offset of BIST in the PCI configuration space.
pub const BIST_OFFSET: usize = 0x0F;

#[derive(Debug)]
/// Error type for PCI configuration space accesses.
pub enum Error {
    /// Offset of the access to the configuration space has improper alignment.
    UnalignedAccess,
    /// Offset of the access to the configuration space is out of bounds.
    OffsetOutOfBounds,
}

/// Check that an address access to the configuration space is 32bit aligned.
///
/// Succeeds exactly on the addresses that are a multiple of four; every other
/// address is rejected with `Error::UnalignedAccess`.
pub fn validate_dword_alignment(addr: usize) -> (r: Result<(), Error>)
    ensures
        addr % 4 == 0 ==> r == Ok::<(), Error>(()),
        addr % 4 != 0 ==> r == Err::<(), Error>(Error::UnalignedAccess),
{
    if addr % 4 != 0 {
        return Err(Error::UnalignedAccess);
    }
    Ok(())
}

/// Enum representing PCI header types as presented in the PCI specification.
#[derive(Copy, Clone)]
pub enum PciHeaderType {
    /// Generic PCI device.
    Device,
    /// PCI-to-PCI bridge.
    PciToPciBridge,
    /// PCI-to-Cardbus bridge.
    PciToCardbusBridge,
    /// Unknown header type.
    Unknown,
}

impl PciHeaderType {
    /// The header type a raw byte of the header type register decodes to.
    pub open spec fn spec_from(item: u8) -> Self {
        match item {
            0x00 => Self::Device,
            0x01 => Self::PciToPciBridge,
            0x02 => Self::PciToCardbusBridge,
            _ => Self::Unknown,
        }
    }

    /// The byte this header type occupies in the header type register.
    pub open spec fn spec_value(self) -> u8 {
        match self {
            Self::Device => 0x00,
            Self::PciToPciBridge => 0x01,
            Self::PciToCardbusBridge => 0x02,
            Self::Unknown => 0xff,
        }
    }

    /// Represent the header type as a byte to be used in the PCI
    /// configuration space.
    pub fn value(self) -> (r: u8)
        ensures
            r == self.spec_value(),
    {
        match self {
            Self::Device => 0x00,
            Self::PciToPciBridge => 0x01,
            Self::PciToCardbusBridge => 0x02,
            Self::Unknown => 0xff,
        }
    }
}

impl From<u8> for PciHeaderType {
    fn from(item: u8) -> (r: Self) {
        match item {
            0x00 => Self::Device,
            0x01 => Self::PciToPciBridge,
            0x02 => Self::PciToCardbusBridge,
            _ => Self::Unknown,
        }
    }
}

impl vstd::std_specs::convert::FromSpecImpl<u8> for PciHeaderType {
    open spec fn obeys_from_spec() -> bool {
        true
    }

    open spec fn from_spec(item: u8) -> Self {
        Self::spec_from(item)
    }
}

/// Law: decoding a header type byte never fails, and every code outside the
/// known set collapses to the `Unknown` variant.
pub proof fn lemma_unknown_header_type_decodes_to_unknown(item: u8)
    requires
        item > 0x02,
    ensures
        PciHeaderType::spec_from(item) == PciHeaderType::Unknown,
{
}

/// Enum representing PCI classes as presented in the PCI specification.
#[derive(Copy, Clone)]
pub enum PciClassCode {
    /// Precursor to class codes (introduced in PCI rev 2.0)
    TooOld,
    /// Mass storage controller.
    MassStorage,
    /// Network controller.
    NetworkController,
    /// Display controller.
    DisplayController,
    /// Media controller.
    MultimediaController,
    /// Memory controller.
    MemoryController,
    /// Bridge device.
    BridgeDevice,
    /// Simple communications controller.
    SimpleCommunicationController,
    /// Base system peripheral.
    BaseSystemPeripheral,
    /// Input device.
    InputDevice,
    /// Docking station.
    DockingStation,
    /// Processor.
    Processor,
    /// Serial bus controller.
    SerialBusController,
    /// Wireless controller.
    WirelessController,
    /// Intelligent IO controller.
    IntelligentIoController,
    /// Encryption controller.
    EncryptionController,
    /// Signal processing.
    SignalProcessing,
    /// Processing accelerator.
    ProcessingAccelerator,
    /// Non-essential instrumentation.
    NonEssentialInstrumentation,
    /// Unknown class.
    Other,
}

impl PciClassCode {
    /// The byte this class occupies in the class code register.
    pub open spec fn spec_value(self) -> u8 {
        match self {
            Self::TooOld => 0x00,
            Self::MassStorage => 0x01,
            Self::NetworkController => 0x02,
            Self::DisplayController => 0x03,
            Self::MultimediaController => 0x04,
            Self::MemoryController => 0x05,
            Self::BridgeDevice => 0x06,
            Self::SimpleCommunicationController => 0x07,
            Self::BaseSystemPeripheral => 0x08,
            Self::InputDevice => 0x09,
            Self::DockingStation => 0x0a,
            Self::Processor => 0x0b,
            Self::SerialBusController => 0x0c,
            Self::WirelessController => 0x0d,
            Self::IntelligentIoController => 0x0e,
            Self::EncryptionController => 0x0f,
            Self::SignalProcessing => 0x10,
            Self::ProcessingAccelerator => 0x11,
            Self::NonEssentialInstrumentation => 0x12,
            Self::Other => 0xff,
        }
    }

    /// The class a raw byte of the class code register decodes to.
    pub open spec fn spec_from(item: u8) -> Self {
        match item {
            0x00 => Self::TooOld,
            0x01 => Self::MassStorage,
            0x02 => Self::NetworkController,
            0x03 => Self::DisplayController,
            0x04 => Self::MultimediaController,
            0x05 => Self::MemoryController,
            0x06 => Self::BridgeDevice,
            0x07 => Self::SimpleCommunicationController,
            0x08 => Self::BaseSystemPeripheral,
            0x09 => Self::InputDevice,
            0x0a => Self::DockingStation,
            0x0b => Self::Processor,
            0x0c => Self::SerialBusController,
            0x0d => Self::WirelessController,
            0x0e => Self::IntelligentIoController,
            0x0f => Self::EncryptionController,
            0x10 => Self::SignalProcessing,
            0x11 => Self::ProcessingAccelerator,
            0x12 => Self::NonEssentialInstrumentation,
            _ => Self::Other,
        }
    }

    /// Represent the class as a byte to be used in the PCI configuration
    /// space.
    pub fn value(self) -> (r: u8)
        ensures
            r == self.spec_value(),
    {
        match self {
            Self::TooOld => 0x00,
            Self::MassStorage => 0x01,
            Self::NetworkController => 0x02,
            Self::DisplayController => 0x03,
            Self::MultimediaController => 0x04,
            Self::MemoryController => 0x05,
            Self::BridgeDevice => 0x06,
            Self::SimpleCommunicationController => 0x07,
            Self::BaseSystemPeripheral => 0x08,
            Self::InputDevice => 0x09,
            Self::DockingStation => 0x0a,
            Self::Processor => 0x0b,
            Self::SerialBusController => 0x0c,
            Self::WirelessController => 0x0d,
            Self::IntelligentIoController => 0x0e,
            Self::EncryptionController => 0x0f,
            Self::SignalProcessing => 0x10,
            Self::ProcessingAccelerator => 0x11,
            Self::NonEssentialInstrumentation => 0x12,
            Self::Other => 0xff,
        }
    }
}

impl From<u8> for PciClassCode {
    fn from(item: u8) -> (r: Self) {
        match item {
            0x00 => Self::TooOld,
            0x01 => Self::MassStorage,
            0x02 => Self::NetworkController,
            0x03 => Self::DisplayController,
            0x04 => Self::MultimediaController,
            0x05 => Self::MemoryController,
            0x06 => Self::BridgeDevice,
            0x07 => Self::SimpleCommunicationController,
            0x08 => Self::BaseSystemPeripheral,
            0x09 => Self::InputDevice,
            0x0a => Self::DockingStation,
            0x0b => Self::Processor,
            0x0c => Self::SerialBusController,
            0x0d => Self::WirelessController,
            0x0e => Self::IntelligentIoController,
            0x0f => Self::EncryptionController,
            0x10 => Self::SignalProcessing,
            0x11 => Self::ProcessingAccelerator,
            0x12 => Self::NonEssentialInstrumentation,
            _ => Self::Other,
        }
    }
}

impl vstd::std_specs::convert::FromSpecImpl<u8> for PciClassCode {
    open spec fn obeys_from_spec() -> bool {
        true
    }

    open spec fn from_spec(item: u8) -> Self {
        Self::spec_from(item)
    }
}

/// Law: decoding a class code byte never fails, and every code outside the
/// known set collapses to the `Other` variant.
pub proof fn lemma_unknown_class_code_decodes_to_other(item: u8)
    requires
        item > 0x12,
    ensures
        PciClassCode::spec_from(item) == PciClassCode::Other,
{
}

/// A PCI subclass abstraction.
///
/// Each class in `PciClassCode` can specify a unique set of subclasses. This
/// trait is implemented by each subclass. It allows use of a trait object to
/// generate configurations.
pub trait PciSubclass: From<u8> {
    /// Represent the subclass as a byte to be used in the PCI configuration
    /// space.
    fn value(&self) -> u8;
}

/// A PCI programming interface abstraction.
///
/// Each combination of `PciClassCode` and `PciSubclass` can specify a set of
/// register-level programming interfaces. This trait is implemented by each
/// programming interface. It allows use of a trait object to generate
/// configurations.
pub trait PciProgrammingInterface: From<u8> {
    /// Represent the programming interface as a byte to be used in the PCI
    /// configuration space.
    fn value(&self) -> u8;
}

/// Enum representing PCI capability IDs as presented in the PCI specification.
#[derive(PartialEq, Eq, Structural, Copy, Clone)]
pub enum PciCapabilityId {
    /// Reserved.
    ListId,
    /// Power Management Interface.
    PowerManagement,
    /// Accelerated Graphics Port.
    AcceleratedGraphicsPort,
    /// Vital Product Data.
    VitalProductData,
    /// Slot Identification.
    SlotIdentification,
    /// Message Signaled Interrupts.
    MessageSignalledInterrupts,
    /// CompactPCI Hot Swap.
    CompactPciHotSwap,
    /// PCI-X.
    PciX,
    /// HyperTransport.
    HyperTransport,
    /// Vendor specific.
    VendorSpecific,
    /// Debug port.
    DebugPort,
    /// CompactPCI central resource control.
    CompactPciCentralResourceControl,
    /// PCI Hot-Plug.
    PciHotPlug,
    /// PCI Bridge Subsystem Vendor ID.
    BridgeSubsystemVendorDeviceId,
    /// AGP 8x.
    Agp8X,
    /// Secure Device.
    SecureDevice,
    /// PCI Express.
    PciExpress,
    /// MSI-X.
    MsiX,
    /// SATA Data Index.
    SataDataIndex,
    /// PCI Advanced Features.
    PciAdvancedFeatures,
    /// PCI Enhanced Allocation.
    PciEnhancedAllocation,
}

impl PciCapabilityId {
    /// The byte this capability ID occupies in a capability header.
    pub open spec fn spec_value(self) -> u8 {
        match self {
            Self::ListId => 0x00,
            Self::PowerManagement => 0x01,
            Self::AcceleratedGraphicsPort => 0x02,
            Self::VitalProductData => 0x03,
            Self::SlotIdentification => 0x04,
            Self::MessageSignalledInterrupts => 0x05,
            Self::CompactPciHotSwap => 0x06,
            Self::PciX => 0x07,
            Self::HyperTransport => 0x08,
            Self::VendorSpecific => 0x09,
            Self::DebugPort => 0x0A,
            Self::CompactPciCentralResourceControl => 0x0B,
            Self::PciHotPlug => 0x0C,
            Self::BridgeSubsystemVendorDeviceId => 0x0D,
            Self::Agp8X => 0x0E,
            Self::SecureDevice => 0x0F,
            Self::PciExpress => 0x10,
            Self::MsiX => 0x11,
            Self::SataDataIndex => 0x12,
            Self::PciAdvancedFeatures => 0x13,
            Self::PciEnhancedAllocation => 0x14,
        }
    }

    /// The capability ID a raw capability header byte decodes to.
    pub open spec fn spec_from(item: u8) -> Self {
        match item {
            0x00 => Self::ListId,
            0x01 => Self::PowerManagement,
            0x02 => Self::AcceleratedGraphicsPort,
            0x03 => Self::VitalProductData,
            0x04 => Self::SlotIdentification,
            0x05 => Self::MessageSignalledInterrupts,
            0x06 => Self::CompactPciHotSwap,
            0x07 => Self::PciX,
            0x08 => Self::HyperTransport,
            0x09 => Self::VendorSpecific,
            0x0A => Self::DebugPort,
            0x0B => Self::CompactPciCentralResourceControl,
            0x0C => Self::PciHotPlug,
            0x0D => Self::BridgeSubsystemVendorDeviceId,
            0x0E => Self::Agp8X,
            0x0F => Self::SecureDevice,
            0x10 => Self::PciExpress,
            0x11 => Self::MsiX,
            0x12 => Self::SataDataIndex,
            0x13 => Self::PciAdvancedFeatures,
            0x14 => Self::PciEnhancedAllocation,
            _ => Self::ListId,
        }
    }

    /// Represent the capability ID as a byte to be used in the PCI
    /// configuration space.
    pub fn value(self) -> (r: u8)
        ensures
            r == self.spec_value(),
    {
        match self {
            Self::ListId => 0x00,
            Self::PowerManagement => 0x01,
            Self::AcceleratedGraphicsPort => 0x02,
            Self::VitalProductData => 0x03,
            Self::SlotIdentification => 0x04,
            Self::MessageSignalledInterrupts => 0x05,
            Self::CompactPciHotSwap => 0x06,
            Self::PciX => 0x07,
            Self::HyperTransport => 0x08,
            Self::VendorSpecific => 0x09,
            Self::DebugPort => 0x0A,
            Self::CompactPciCentralResourceControl => 0x0B,
            Self::PciHotPlug => 0x0C,
            Self::BridgeSubsystemVendorDeviceId => 0x0D,
            Self::Agp8X => 0x0E,
            Self::SecureDevice => 0x0F,
            Self::PciExpress => 0x10,
            Self::MsiX => 0x11,
            Self::SataDataIndex => 0x12,
            Self::PciAdvancedFeatures => 0x13,
            Self::PciEnhancedAllocation => 0x14,
        }
    }
}

impl From<u8> for PciCapabilityId {
    fn from(item: u8) -> (r: Self) {
        match item {
            0x00 => PciCapabilityId::ListId,
            0x01 => PciCapabilityId::PowerManagement,
            0x02 => PciCapabilityId::AcceleratedGraphicsPort,
            0x03 => PciCapabilityId::VitalProductData,
            0x04 => PciCapabilityId::SlotIdentification,
            0x05 => PciCapabilityId::MessageSignalledInterrupts,
            0x06 => PciCapabilityId::CompactPciHotSwap,
            0x07 => PciCapabilityId::PciX,
            0x08 => PciCapabilityId::HyperTransport,
            0x09 => PciCapabilityId::VendorSpecific,
            0x0A => PciCapabilityId::DebugPort,
            0x0B => PciCapabilityId::CompactPciCentralResourceControl,
            0x0C => PciCapabilityId::PciHotPlug,
            0x0D => PciCapabilityId::BridgeSubsystemVendorDeviceId,
            0x0E => PciCapabilityId::Agp8X,
            0x0F => PciCapabilityId::SecureDevice,
            0x10 => PciCapabilityId::PciExpress,
            0x11 => PciCapabilityId::MsiX,
            0x12 => PciCapabilityId::SataDataIndex,
            0x13 => PciCapabilityId::PciAdvancedFeatures,
            0x14 => PciCapabilityId::PciEnhancedAllocation,
            _ => PciCapabilityId::ListId,
        }
    }
}

impl vstd::std_specs::convert::FromSpecImpl<u8> for PciCapabilityId {
    open spec fn obeys_from_spec() -> bool {
        true
    }

    open spec fn from_spec(item: u8) -> Self {
        Self::spec_from(item)
    }
}

/// Law: decoding a capability ID byte never fails, and every code outside
/// the known set collapses to the reserved `ListId` variant.
pub proof fn lemma_unknown_capability_id_decodes_to_list_id(item: u8)
    requires
        item > 0x14,
    ensures
        PciCapabilityId::spec_from(item) == PciCapabilityId::ListId,
{
}

/// The 16-bit field of a register that starts at byte lane `byte_idx`:
/// the low half for lane 0, the high half for lane 2.
pub open spec fn word_lane_of(reg: u32, byte_idx: usize) -> u16
    recommends
        byte_idx == 0 || byte_idx == 2,
{
    if byte_idx == 0 {
        (reg & 0x0000_ffff) as u16
    } else {
        ((reg & 0xffff_0000) >> 16) as u16
    }
}

/// The register that results from replacing the 16-bit field starting at
/// byte lane `byte_idx` with `value`, with the other half kept unchanged.
pub open spec fn set_word_lane(reg: u32, byte_idx: usize, value: u16) -> u32
    recommends
        byte_idx == 0 || byte_idx == 2,
{
    if byte_idx == 0 {
        (reg & 0xffff_0000) | (value as u32)
    } else {
        (reg & 0x0000_ffff) | ((value as u32) << 16)
    }
}

/// The 8-bit field of a register that occupies byte lane `byte_idx`.
pub open spec fn byte_lane_of(reg: u32, byte_idx: usize) -> u8
    recommends
        byte_idx < 4,
{
    if byte_idx == 0 {
        (reg & 0x0000_00ff) as u8
    } else if byte_idx == 1 {
        ((reg & 0x0000_ff00) >> 8) as u8
    } else if byte_idx == 2 {
        ((reg & 0x00ff_0000) >> 16) as u8
    } else {
        ((reg & 0xff00_0000) >> 24) as u8
    }
}

/// The register that results from replacing byte lane `byte_idx` with
/// `value`, with the other three lanes kept unchanged.
pub open spec fn set_byte_lane(reg: u32, byte_idx: usize, value: u8) -> u32
    recommends
        byte_idx < 4,
{
    if byte_idx == 0 {
        (reg & 0xffff_ff00) | (value as u32)
    } else if byte_idx == 1 {
        (reg & 0xffff_00ff) | ((value as u32) << 8)
    } else if byte_idx == 2 {
        (reg & 0xff00_ffff) | ((value as u32) << 16)
    } else {
        (reg & 0x00ff_ffff) | ((value as u32) << 24)
    }
}

/// What a dword read at `offset` yields from the register sequence `regs`:
/// the register the offset falls in, if the offset is dword aligned and the
/// register exists.
pub open spec fn spec_read_dword(regs: Seq<u32>, offset: usize) -> Result<u32, Error> {
    if offset % 4 != 0 {
        Err(Error::UnalignedAccess)
    } else if offset / 4 < regs.len() {
        Ok(regs[(offset / 4) as int])
    } else {
        Err(Error::OffsetOutOfBounds)
    }
}

/// What a dword write of `value` at `offset` makes of the register sequence
/// `regs`: the register the offset falls in is replaced whole.
pub open spec fn spec_write_dword(regs: Seq<u32>, value: u32, offset: usize) -> Result<
    Seq<u32>,
    Error,
> {
    if offset % 4 != 0 {
        Err(Error::UnalignedAccess)
    } else if offset / 4 < regs.len() {
        Ok(regs.update((offset / 4) as int, value))
    } else {
        Err(Error::OffsetOutOfBounds)
    }
}

/// What a word read at `offset` yields from the register sequence `regs`:
/// the 16-bit half of the register the offset falls in. Only byte lanes 0
/// and 2 are legal, since a 16-bit field cannot straddle two registers.
pub open spec fn spec_read_word(regs: Seq<u32>, offset: usize) -> Result<u16, Error> {
    if offset % 4 == 1 || offset % 4 == 3 {
        Err(Error::UnalignedAccess)
    } else if offset / 4 < regs.len() {
        Ok(word_lane_of(regs[(offset / 4) as int], offset % 4))
    } else {
        Err(Error::OffsetOutOfBounds)
    }
}

/// What a word write of `value` at `offset` makes of the register sequence
/// `regs`: the addressed 16-bit half is replaced and the other half of the
/// register is preserved exactly.
pub open spec fn spec_write_word(regs: Seq<u32>, value: u16, offset: usize) -> Result<
    Seq<u32>,
    Error,
> {
    if offset % 4 == 1 || offset % 4 == 3 {
        Err(Error::UnalignedAccess)
    } else if offset / 4 < regs.len() {
        Ok(
            regs.update(
                (offset / 4) as int,
                set_word_lane(regs[(offset / 4) as int], offset % 4, value),
            ),
        )
    } else {
        Err(Error::OffsetOutOfBounds)
    }
}

/// What a byte read at `offset` yields from the register sequence `regs`:
/// the 8-bit lane of the register the offset falls in. A byte access is
/// inherently aligned, so every lane is legal.
pub open spec fn spec_read_byte(regs: Seq<u32>, offset: usize) -> Result<u8, Error> {
    if offset / 4 < regs.len() {
        Ok(byte_lane_of(regs[(offset / 4) as int], offset % 4))
    } else {
        Err(Error::OffsetOutOfBounds)
    }
}

/// What a byte write of `value` at `offset` makes of the register sequence
/// `regs`: the addressed 8-bit lane is replaced and the other three lanes
/// of the register are preserved exactly.
pub open spec fn spec_write_byte(regs: Seq<u32>, value: u8, offset: usize) -> Result<
    Seq<u32>,
    Error,
> {
    if offset / 4 < regs.len() {
        Ok(
            regs.update(
                (offset / 4) as int,
                set_byte_lane(regs[(offset / 4) as int], offset % 4, value),
            ),
        )
    } else {
        Err(Error::OffsetOutOfBounds)
    }
}

/// Allows access to a PCI configuration space.
///
/// An implementor owns a register-granularity backing store, exposed through
/// `read_register` and `write_register` and modeled by the ghost sequence
/// `regs`. Every byte-, word- and dword-wide access is derived from exactly
/// that pair, so the bit-packing logic is shared by any number of concrete
/// device types.
pub trait PciConfig {
    /// The sequence of 32-bit registers that backs this configuration space.
    ///
    /// A verified implementation overrides this with a view of its own
    /// backing store; the default empty model only suits an implementation
    /// whose register file holds nothing.
    open spec fn regs(&self) -> Seq<u32> {
        Seq::empty()
    }

    /// Read a register from the configuration space.
    ///
    /// # Arguments
    ///
    /// * `idx`:   index of the register
    fn read_register(&self, idx: usize) -> (r: Result<u32, Error>)
        ensures
            idx < self.regs().len() ==> r == Ok::<u32, Error>(self.regs()[idx as int]),
            idx >= self.regs().len() ==> r == Err::<u32, Error>(Error::OffsetOutOfBounds),
    ;

    /// Write to a register in the configuration space.
    ///
    /// # Arguments
    ///
    /// * `data`:   data to be written
    /// * `idx`:    index of the register
    fn write_register(&mut self, data: u32, idx: usize) -> (r: Result<(), Error>)
        ensures
            idx < old(self).regs().len() ==> r == Ok::<(), Error>(()) && final(self).regs()
                == old(self).regs().update(idx as int, data),
            idx >= old(self).regs().len() ==> r == Err::<(), Error>(Error::OffsetOutOfBounds)
                && final(self).regs() == old(self).regs(),
    ;

    /// Aligned read of a dword from the given offset in configuration space.
    ///
    /// # Arguments
    ///
    /// * `offset`:   offset of the dword to be read
    fn read_dword(&self, offset: usize) -> (r: Result<u32, Error>)
        ensures
            r == spec_read_dword(self.regs(), offset),
    {
        match validate_dword_alignment(offset) {
            Err(e) => Err(e),
            Ok(()) => {
                let reg_offset = offset / 4;
                self.read_register(reg_offset)
            },
        }
    }

    /// Aligned read of a word from the given offset in configuration space.
    ///
    /// # Arguments
    ///
    /// * `offset`:   offset of the word to be read
    fn read_word(&self, offset: usize) -> (r: Result<u16, Error>)
        ensures
            r == spec_read_word(self.regs(), offset),
    {
        let reg_offset = offset / 4;
        let byte_idx = offset % 4;
        match byte_idx {
            0 => match self.read_register(reg_offset) {
                Ok(reg) => Ok((reg & 0x0000_ffff) as u16),
                Err(e) => Err(e),
            },
            2 => match self.read_register(reg_offset) {
                Ok(reg) => Ok(((reg & 0xffff_0000) >> 16) as u16),
                Err(e) => Err(e),
            },
            _ => Err(Error::UnalignedAccess),
        }
    }

    /// Aligned read of a byte from the given offset in configuration space.
    ///
    /// # Arguments
    ///
    /// * `offset`:   offset of the byte to be read
    fn read_byte(&self, offset: usize) -> (r: Result<u8, Error>)
        ensures
            r == spec_read_byte(self.regs(), offset),
    {
        let reg_offset = offset / 4;
        let byte_idx = offset % 4;
        match self.read_register(reg_offset) {
            Err(e) => Err(e),
            Ok(reg) => match byte_idx {
                0 => Ok((reg & 0x0000_00ff) as u8),
                1 => Ok(((reg & 0x0000_ff00) >> 8) as u8),
                2 => Ok(((reg & 0x00ff_0000) >> 16) as u8),
                _ => Ok(((reg & 0xff00_0000) >> 24) as u8),
            },
        }
    }

    /// Aligned write of a dword at the given offset in configuration space.
    ///
    /// # Arguments
    ///
    /// * `value`:    value to be written
    /// * `offset`:   offset of the dword to be written
    fn write_dword(&mut self, value: u32, offset: usize) -> (r: Result<(), Error>)
        ensures
            spec_write_dword(old(self).regs(), value, offset) matches Ok(rs) ==> r == Ok::<
                (),
                Error,
            >(()) && final(self).regs() == rs,
            spec_write_dword(old(self).regs(), value, offset) matches Err(e) ==> r == Err::<
                (),
                Error,
            >(e) && final(self).regs() == old(self).regs(),
    {
        match validate_dword_alignment(offset) {
            Err(e) => Err(e),
            Ok(()) => {
                let reg_offset = offset / 4;
                self.write_register(value, reg_offset)
            },
        }
    }

    /// Aligned write of a word at the given offset in configuration space.
    ///
    /// The write is read-modify-write: the untouched half of the register is
    /// preserved exactly while the new 16 bits are inserted.
    ///
    /// # Arguments
    ///
    /// * `value`:    value to be written
    /// * `offset`:   offset of the word to be written
    fn write_word(&mut self, value: u16, offset: usize) -> (r: Result<(), Error>)
        ensures
            spec_write_word(old(self).regs(), value, offset) matches Ok(rs) ==> r == Ok::<
                (),
                Error,
            >(()) && final(self).regs() == rs,
            spec_write_word(old(self).regs(), value, offset) matches Err(e) ==> r == Err::<
                (),
                Error,
            >(e) && final(self).regs() == old(self).regs(),
    {
        let reg_offset = offset / 4;
        let byte_idx = offset % 4;
        match byte_idx {
            0 => match self.read_register(reg_offset) {
                Ok(reg) => {
                    let res = (reg & 0xffff_0000) | (value as u32);
                    self.write_register(res, reg_offset)
                },
                Err(e) => Err(e),
            },
            2 => match self.read_register(reg_offset) {
                Ok(reg) => {
                    let res = (reg & 0x0000_ffff) | ((value as u32) << 16);
                    self.write_register(res, reg_offset)
                },
                Err(e) => Err(e),
            },
            _ => Err(Error::UnalignedAccess),
        }
    }

    /// Aligned write of a byte at the given offset in configuration space.
    ///
    /// The write is read-modify-write: the other three lanes of the register
    /// are preserved exactly while the new 8 bits are inserted.
    ///
    /// # Arguments
    ///
    /// * `value`:    value to be written
    /// * `offset`:   offset of the byte to be written
    fn write_byte(&mut self, value: u8, offset: usize) -> (r: Result<(), Error>)
        ensures
            spec_write_byte(old(self).regs(), value, offset) matches Ok(rs) ==> r == Ok::<
                (),
                Error,
            >(()) && final(self).regs() == rs,
            spec_write_byte(old(self).regs(), value, offset) matches Err(e) ==> r == Err::<
                (),
                Error,
            >(e) && final(self).regs() == old(self).regs(),
    {
        let reg_offset = offset / 4;
        let byte_idx = offset % 4;
        match self.read_register(reg_offset) {
            Err(e) => Err(e),
            Ok(reg) => {
                let res = match byte_idx {
                    0 => (reg & 0xffff_ff00) | (value as u32),
                    1 => (reg & 0xffff_00ff) | ((value as u32) << 8),
                    2 => (reg & 0xff00_ffff) | ((value as u32) << 16),
                    _ => (reg & 0x00ff_ffff) | ((value as u32) << 24),
                };
                self.write_register(res, reg_offset)
            },
        }
    }

    /// Reads the vendor ID from the configuration space.
    fn vendor_id(&self) -> (r: Result<u16, Error>)
        ensures
            r == spec_read_word(self.regs(), VENDOR_ID_OFFSET),
    {
        self.read_word(VENDOR_ID_OFFSET)
    }

    /// Writes the vendor ID to the configuration space.
    fn write_vendor_id(&mut self, device_id: u16) -> (r: Result<(), Error>)
        ensures
            spec_write_word(old(self).regs(), device_id, VENDOR_ID_OFFSET) matches Ok(rs) ==> r
                == Ok::<(), Error>(()) && final(self).regs() == rs,
            spec_write_word(old(self).regs(), device_id, VENDOR_ID_OFFSET) matches Err(e) ==> r
                == Err::<(), Error>(e) && final(self).regs() == old(self).regs(),
    {
        self.write_word(device_id, VENDOR_ID_OFFSET)
    }

    /// Reads the device ID from the configuration space.
    fn device_id(&self) -> (r: Result<u16, Error>)
        ensures
            r == spec_read_word(self.regs(), DEVICE_ID_OFFSET),
    {
        self.read_word(DEVICE_ID_OFFSET)
    }

    /// Writes the device ID to the configuration space.
    fn write_device_id(&mut self, device_id: u16) -> (r: Result<(), Error>)
        ensures
            spec_write_word(old(self).regs(), device_id, DEVICE_ID_OFFSET) matches Ok(rs) ==> r
                == Ok::<(), Error>(()) && final(self).regs() == rs,
            spec_write_word(old(self).regs(), device_id, DEVICE_ID_OFFSET) matches Err(e) ==> r
                == Err::<(), Error>(e) && final(self).regs() == old(self).regs(),
    {
        self.write_word(device_id, DEVICE_ID_OFFSET)
    }

    /// Reads the command from the configuration space.
    fn command(&self) -> (r: Result<u16, Error>)
        ensures
            r == spec_read_word(self.regs(), COMMAND_OFFSET),
    {
        self.read_word(COMMAND_OFFSET)
    }

    /// Writes the command to the configuration space.
    fn write_command(&mut self, command: u16) -> (r: Result<(), Error>)
        ensures
            spec_write_word(old(self).regs(), command, COMMAND_OFFSET) matches Ok(rs) ==> r
                == Ok::<(), Error>(()) && final(self).regs() == rs,
            spec_write_word(old(self).regs(), command, COMMAND_OFFSET) matches Err(e) ==> r
                == Err::<(), Error>(e) && final(self).regs() == old(self).regs(),
    {
        self.write_word(command, COMMAND_OFFSET)
    }

    /// Reads the status from the configuration space.
    fn status(&self) -> (r: Result<u16, Error>)
        ensures
            r == spec_read_word(self.regs(), STATUS_OFFSET),
    {
        self.read_word(STATUS_OFFSET)
    }

    /// Writes the status to the configuration space.
    fn write_status(&mut self, status: u16) -> (r: Result<(), Error>)
        ensures
            spec_write_word(old(self).regs(), status, STATUS_OFFSET) matches Ok(rs) ==> r
                == Ok::<(), Error>(()) && final(self).regs() == rs,
            spec_write_word(old(self).regs(), status, STATUS_OFFSET) matches Err(e) ==> r
                == Err::<(), Error>(e) && final(self).regs() == old(self).regs(),
    {
        self.write_word(status, STATUS_OFFSET)
    }

    /// Reads the revision ID from the configuration space.
    fn revision_id(&self) -> (r: Result<u8, Error>)
        ensures
            r == spec_read_byte(self.regs(), REVISION_ID_OFFSET),
    {
        self.read_byte(REVISION_ID_OFFSET)
    }

    /// Writes the revision ID to the configuration space.
    fn write_revision_id(&mut self, revision_id: u8) -> (r: Result<(), Error>)
        ensures
            spec_write_byte(old(self).regs(), revision_id, REVISION_ID_OFFSET) matches Ok(rs)
                ==> r == Ok::<(), Error>(()) && final(self).regs() == rs,
            spec_write_byte(old(self).regs(), revision_id, REVISION_ID_OFFSET) matches Err(e)
                ==> r == Err::<(), Error>(e) && final(self).regs() == old(self).regs(),
    {
        self.write_byte(revision_id, REVISION_ID_OFFSET)
    }

    /// Reads the programming interface from the configuration space.
    fn prog_if(&self) -> (r: Result<u8, Error>)
        ensures
            r == spec_read_byte(self.regs(), PROG_IF_OFFSET),
    {
        self.read_byte(PROG_IF_OFFSET)
    }

    /// Writes the programming interface to the configuration space.
    fn write_prog_if(&mut self, prog_if: u8) -> (r: Result<(), Error>)
        ensures
            spec_write_byte(old(self).regs(), prog_if, PROG_IF_OFFSET) matches Ok(rs) ==> r
                == Ok::<(), Error>(()) && final(self).regs() == rs,
            spec_write_byte(old(self).regs(), prog_if, PROG_IF_OFFSET) matches Err(e) ==> r
                == Err::<(), Error>(e) && final(self).regs() == old(self).regs(),
    {
        self.write_byte(prog_if, PROG_IF_OFFSET)
    }

    /// Reads the subclass from the configuration space.
    fn subclass(&self) -> (r: Result<u8, Error>)
        ensures
            r == spec_read_byte(self.regs(), SUBCLASS_OFFSET),
    {
        self.read_byte(SUBCLASS_OFFSET)
    }

    /// Writes the subclass to the configuration space.
    fn write_subclass(&mut self, subclass: u8) -> (r: Result<(), Error>)
        ensures
            spec_write_byte(old(self).regs(), subclass, SUBCLASS_OFFSET) matches Ok(rs) ==> r
                == Ok::<(), Error>(()) && final(self).regs() == rs,
            spec_write_byte(old(self).regs(), subclass, SUBCLASS_OFFSET) matches Err(e) ==> r
                == Err::<(), Error>(e) && final(self).regs() == old(self).regs(),
    {
        self.write_byte(subclass, SUBCLASS_OFFSET)
    }

    /// Reads the class code from the configuration space.
    fn class_code(&self) -> (r: Result<u8, Error>)
        ensures
            r == spec_read_byte(self.regs(), CLASS_CODE_OFFSET),
    {
        self.read_byte(CLASS_CODE_OFFSET)
    }

    /// Writes the class code to the configuration space.
    fn write_class_code(&mut self, class_code: u8) -> (r: Result<(), Error>)
        ensures
            spec_write_byte(old(self).regs(), class_code, CLASS_CODE_OFFSET) matches Ok(rs)
                ==> r == Ok::<(), Error>(()) && final(self).regs() == rs,
            spec_write_byte(old(self).regs(), class_code, CLASS_CODE_OFFSET) matches Err(e)
                ==> r == Err::<(), Error>(e) && final(self).regs() == old(self).regs(),
    {
        self.write_byte(class_code, CLASS_CODE_OFFSET)
    }

    /// Reads the cache line size from the configuration space.
    fn cache_line_size(&self) -> (r: Result<u8, Error>)
        ensures
            r == spec_read_byte(self.regs(), CACHE_LINE_SIZE_OFFSET),
    {
        self.read_byte(CACHE_LINE_SIZE_OFFSET)
    }

    /// Writes the cache line size to the configuration space.
    fn write_cache_line_size(&mut self, cache_line_size: u8) -> (r: Result<(), Error>)
        ensures
            spec_write_byte(old(self).regs(), cache_line_size, CACHE_LINE_SIZE_OFFSET) matches
                Ok(rs) ==> r == Ok::<(), Error>(()) && final(self).regs() == rs,
            spec_write_byte(old(self).regs(), cache_line_size, CACHE_LINE_SIZE_OFFSET) matches
                Err(e) ==> r == Err::<(), Error>(e) && final(self).regs() == old(self).regs(),
    {
        self.write_byte(cache_line_size, CACHE_LINE_SIZE_OFFSET)
    }

    /// Reads the latency timer from the configuration space.
    fn latency_timer(&self) -> (r: Result<u8, Error>)
        ensures
            r == spec_read_byte(self.regs(), LATENCY_TIMER_OFFSET),
    {
        self.read_byte(LATENCY_TIMER_OFFSET)
    }

    /// Writes the latency timer to the configuration space.
    fn write_latency_timer(&mut self, latency_timer: u8) -> (r: Result<(), Error>)
        ensures
            spec_write_byte(old(self).regs(), latency_timer, LATENCY_TIMER_OFFSET) matches Ok(
                rs,
            ) ==> r == Ok::<(), Error>(()) && final(self).regs() == rs,
            spec_write_byte(old(self).regs(), latency_timer, LATENCY_TIMER_OFFSET) matches Err(
                e,
            ) ==> r == Err::<(), Error>(e) && final(self).regs() == old(self).regs(),
    {
        self.write_byte(latency_timer, LATENCY_TIMER_OFFSET)
    }

    /// Reads the header type from the configuration space.
    fn header_type(&self) -> (r: Result<u8, Error>)
        ensures
            r == spec_read_byte(self.regs(), HEADER_TYPE_OFFSET),
    {
        self.read_byte(HEADER_TYPE_OFFSET)
    }

    /// Writes the header type to the configuration space.
    fn write_header_type(&mut self, header_type: u8) -> (r: Result<(), Error>)
        ensures
            spec_write_byte(old(self).regs(), header_type, HEADER_TYPE_OFFSET) matches Ok(rs)
                ==> r == Ok::<(), Error>(()) && final(self).regs() == rs,
            spec_write_byte(old(self).regs(), header_type, HEADER_TYPE_OFFSET) matches Err(e)
                ==> r == Err::<(), Error>(e) && final(self).regs() == old(self).regs(),
    {
        self.write_byte(header_type, HEADER_TYPE_OFFSET)
    }

    /// Reads the BIST from the configuration space.
    fn bist(&self) -> (r: Result<u8, Error>)
        ensures
            r == spec_read_byte(self.regs(), BIST_OFFSET),
    {
        self.read_byte(BIST_OFFSET)
    }

    /// Writes the BIST to the configuration space.
    fn write_bist(&mut self, bist: u8) -> (r: Result<(), Error>)
        ensures
            spec_write_byte(old(self).regs(), bist, BIST_OFFSET) matches Ok(rs) ==> r == Ok::<
                (),
                Error,
            >(()) && final(self).regs() == rs,
            spec_write_byte(old(self).regs(), bist, BIST_OFFSET) matches Err(e) ==> r == Err::<
                (),
                Error,
            >(e) && final(self).regs() == old(self).regs(),
    {
        self.write_byte(bist, BIST_OFFSET)
    }
}

/// Law: a dword written at an aligned, in-range offset is read back
/// unchanged.
pub proof fn lemma_dword_round_trip(regs: Seq<u32>, value: u32, offset: usize)
    requires
        offset % 4 == 0,
        offset / 4 < regs.len(),
    ensures
        (spec_write_dword(regs, value, offset) matches Ok(rs) && spec_read_dword(rs, offset)
            == Ok::<u32, Error>(value)),
{
}

/// Law: a word written at a legal, in-range offset is read back unchanged.
pub proof fn lemma_word_round_trip(regs: Seq<u32>, value: u16, offset: usize)
    requires
        offset % 4 == 0 || offset % 4 == 2,
        offset / 4 < regs.len(),
    ensures
        (spec_write_word(regs, value, offset) matches Ok(rs) && spec_read_word(rs, offset)
            == Ok::<u16, Error>(value)),
{
    let reg = regs[(offset / 4) as int];
    let b = offset % 4;
    assert(word_lane_of(set_word_lane(reg, b, value), b) == value) by (bit_vector)
        requires
            b == 0 || b == 2,
    ;
}

/// Law: a word write touches only its own half of its register: a word
/// read of the other half, or of any other register, yields exactly what
/// it yielded before the write.
pub proof fn lemma_word_write_preserves_other_offsets(
    regs: Seq<u32>,
    value: u16,
    offset: usize,
    other: usize,
)
    requires
        offset % 4 == 0 || offset % 4 == 2,
        offset / 4 < regs.len(),
        other % 4 == 0 || other % 4 == 2,
        other != offset,
    ensures
        (spec_write_word(regs, value, offset) matches Ok(rs) && spec_read_word(rs, other)
            == spec_read_word(regs, other)),
{
    if other / 4 == offset / 4 {
        let reg = regs[(offset / 4) as int];
        let b1 = offset % 4;
        let b2 = other % 4;
        assert(b1 != b2);
        assert(word_lane_of(set_word_lane(reg, b1, value), b2) == word_lane_of(reg, b2))
            by (bit_vector)
            requires
                b1 == 0 || b1 == 2,
                b2 == 0 || b2 == 2,
                b1 != b2,
        ;
    }
}

/// Law: a byte written at an in-range offset is read back unchanged.
pub proof fn lemma_byte_round_trip(regs: Seq<u32>, value: u8, offset: usize)
    requires
        offset / 4 < regs.len(),
    ensures
        (spec_write_byte(regs, value, offset) matches Ok(rs) && spec_read_byte(rs, offset)
            == Ok::<u8, Error>(value)),
{
    let reg = regs[(offset / 4) as int];
    let b = offset % 4;
    assert(byte_lane_of(set_byte_lane(reg, b, value), b) == value) by (bit_vector)
        requires
            b < 4,
    ;
}

/// Law: a byte write touches only its own offset. Whether the other offset
/// names another lane of the same register or any other register, a byte
/// read there yields exactly what it yielded before the write.
pub proof fn lemma_byte_write_preserves_other_offsets(
    regs: Seq<u32>,
    value: u8,
    offset: usize,
    other: usize,
)
    requires
        offset / 4 < regs.len(),
        other != offset,
    ensures
        (spec_write_byte(regs, value, offset) matches Ok(rs) && spec_read_byte(rs, other)
            == spec_read_byte(regs, other)),
{
    if other / 4 == offset / 4 {
        let reg = regs[(offset / 4) as int];
        let b1 = offset % 4;
        let b2 = other % 4;
        assert(b1 != b2);
        assert(byte_lane_of(set_byte_lane(reg, b1, value), b2) == byte_lane_of(reg, b2))
            by (bit_vector)
            requires
                b1 < 4,
                b2 < 4,
                b1 != b2,
        ;
    }
}

/// A PCI capability abstraction.
///
/// For the purposes of representing capabilities in the PCI configuration
/// space, an entity which implements `PciCapability` must be able to present
/// itself as a byte slice and provide its unique capability ID.
pub trait PciCapability {
    /// Returns the byte representation of the capability in the configuration
    /// space.
    fn bytes(&self) -> &[u8];

    /// Returns the ID of the capability, as presented in the PCI
    /// specification.
    fn id(&self) -> PciCapabilityId;
}

} // verus!
