use vm_pci::bar::{Error, PciBarConfig, PciBarPrefetchable, PciBarRegion, PciRomBarConfig};
use vm_pci::pci_config::Error as ConfigSpaceAccessError;

#[test]
fn test_io_bar_region() {
    let r = PciBarRegion::new_io_region(0x1000, 4096).unwrap();
    assert!(
        r == PciBarRegion::Io {
            addr: 0x1000,
            len: 4096
        }
    );

    let err_len = u32::MAX - 512;
    match PciBarRegion::new_io_region(0x1000, err_len) {
        Err(Error::BarAddressInvalid(0x1000, len)) => {
            assert_eq!(len, err_len as u64);
        }
        _ => assert!(false),
    }

    match PciBarRegion::new_io_region(0x1003, 4096) {
        Err(Error::Access(ConfigSpaceAccessError::UnalignedAccess)) => {}
        _ => assert!(false),
    }
}

#[test]
fn test_32bit_mem_bar_region() {
    let r = PciBarRegion::new_32bit_mem_region(0x1000, 4096).unwrap();
    assert!(
        r == PciBarRegion::Memory32Bit {
            addr: 0x1000,
            len: 4096
        }
    );

    let err_len = u32::MAX - 512;
    match PciBarRegion::new_32bit_mem_region(0x1000, err_len) {
        Err(Error::BarAddressInvalid(0x1000, len)) => {
            assert_eq!(len, err_len as u64);
        }
        _ => assert!(false),
    }

    match PciBarRegion::new_32bit_mem_region(0x1003, 4096) {
        Err(Error::Access(ConfigSpaceAccessError::UnalignedAccess)) => {}
        _ => assert!(false),
    }
}

#[test]
fn test_64bit_mem_bar_region() {
    let r = PciBarRegion::new_64bit_mem_region(0x1000, 4096).unwrap();
    assert!(
        r == PciBarRegion::Memory64Bit {
            addr: 0x1000,
            len: 4096
        }
    );

    let big_len = u64::MAX / 2;
    let r = PciBarRegion::new_64bit_mem_region(0x1000, big_len).unwrap();
    assert!(
        r == PciBarRegion::Memory64Bit {
            addr: 0x1000,
            len: big_len
        }
    );

    let err_len = u64::MAX - 512;
    match PciBarRegion::new_64bit_mem_region(0x1000, err_len) {
        Err(Error::BarAddressInvalid(0x1000, len)) => {
            assert_eq!(len, err_len as u64);
        }
        _ => assert!(false),
    }

    match PciBarRegion::new_64bit_mem_region(0x1003, 4096) {
        Err(Error::Access(ConfigSpaceAccessError::UnalignedAccess)) => {}
        _ => assert!(false),
    }
}

#[test]
fn test_region_tag_inequality() {
    // Identical addr/len under different variant tags must compare unequal.
    let io = PciBarRegion::Io {
        addr: 0x1000,
        len: 4096,
    };
    let mem32 = PciBarRegion::Memory32Bit {
        addr: 0x1000,
        len: 4096,
    };
    let mem64 = PciBarRegion::Memory64Bit {
        addr: 0x1000,
        len: 4096,
    };
    assert!(io != mem32);
    assert!(io != mem64);
    assert!(mem32 != mem64);
    assert!(
        io == PciBarRegion::Io {
            addr: 0x1000,
            len: 4096
        }
    );
}

#[test]
fn test_overflow_reported_before_alignment() {
    // An address that both overflows and is misaligned reports the overflow.
    match PciBarRegion::new_io_region(0x1003, u32::MAX) {
        Err(Error::BarAddressInvalid(addr, len)) => {
            assert_eq!(addr, 0x1003);
            assert_eq!(len, u32::MAX as u64);
        }
        _ => assert!(false),
    }

    match PciBarRegion::new_64bit_mem_region(0x1003, u64::MAX) {
        Err(Error::BarAddressInvalid(addr, len)) => {
            assert_eq!(addr, 0x1003);
            assert_eq!(len, u64::MAX);
        }
        _ => assert!(false),
    }
}

#[test]
fn test_prefetchable_value() {
    assert_eq!(PciBarPrefetchable::NotPrefetchable.value(), 0x00);
    assert_eq!(PciBarPrefetchable::Prefetchable.value(), 0x08);
}

#[test]
fn test_bar_config_fields() {
    let config = PciBarConfig {
        index: 2,
        region: PciBarRegion::new_32bit_mem_region(0x2000, 8192).unwrap(),
        prefetchable: PciBarPrefetchable::Prefetchable,
    };
    assert_eq!(config.index, 2);
    assert!(
        config.region
            == PciBarRegion::Memory32Bit {
                addr: 0x2000,
                len: 8192
            }
    );
    assert_eq!(config.prefetchable.value(), 0x08);

    let rom = PciRomBarConfig {
        region: PciBarRegion::new_32bit_mem_region(0x4000, 4096).unwrap(),
        enable: true,
    };
    assert!(rom.enable);
    assert!(
        rom.region
            == PciBarRegion::Memory32Bit {
                addr: 0x4000,
                len: 4096
            }
    );
}
