use vm_pci::pci_config::{validate_dword_alignment, Error, PciConfig};

#[test]
fn test_validate_dword_alignment() {
    match validate_dword_alignment(0x1000) {
        Ok(()) => {}
        _ => assert!(false),
    }

    match validate_dword_alignment(0x1003) {
        Err(Error::UnalignedAccess) => {}
        _ => assert!(false),
    }
}

struct DummyConfig {
    registers: [u32; 64],
}

impl PciConfig for DummyConfig {
    fn read_register(&self, idx: usize) -> std::result::Result<u32, Error> {
        if idx >= 64 {
            return Err(Error::OffsetOutOfBounds);
        }
        Ok(self.registers[idx])
    }

    fn write_register(&mut self, data: u32, idx: usize) -> std::result::Result<(), Error> {
        if idx >= 64 {
            return Err(Error::OffsetOutOfBounds);
        }
        self.registers[idx] = data;
        Ok(())
    }
}

#[test]
fn test_config_read() {
    let mut config = DummyConfig {
        registers: [0u32; 64],
    };
    config.registers[0] = 0xdead_beef;
    config.registers[4] = 0xddcc_bbaa;

    // Byte reads. All byte reads are aligned.
    assert_eq!(config.read_byte(0).unwrap(), 0xef);
    assert_eq!(config.read_byte(1).unwrap(), 0xbe);
    assert_eq!(config.read_byte(2).unwrap(), 0xad);
    assert_eq!(config.read_byte(3).unwrap(), 0xde);
    assert_eq!(config.read_byte(16).unwrap(), 0xaa);
    assert_eq!(config.read_byte(17).unwrap(), 0xbb);
    assert_eq!(config.read_byte(18).unwrap(), 0xcc);
    assert_eq!(config.read_byte(19).unwrap(), 0xdd);

    // Word reads.
    assert_eq!(config.read_word(0).unwrap(), 0xbeef);
    assert_eq!(config.read_word(2).unwrap(), 0xdead);
    assert!(config.read_word(1).is_err());
    assert!(config.read_word(3).is_err());
    assert_eq!(config.read_word(16).unwrap(), 0xbbaa);
    assert_eq!(config.read_word(18).unwrap(), 0xddcc);
    assert!(config.read_word(17).is_err());
    assert!(config.read_word(19).is_err());

    // Dword reads.
    assert_eq!(config.read_dword(0).unwrap(), 0xdead_beef);
    assert!(config.read_dword(1).is_err());
    assert!(config.read_dword(2).is_err());
    assert!(config.read_dword(3).is_err());
    assert_eq!(config.read_dword(16).unwrap(), 0xddcc_bbaa);
    assert!(config.read_dword(17).is_err());
    assert!(config.read_dword(18).is_err());
    assert!(config.read_dword(19).is_err());
}

#[test]
fn test_config_write() {
    let mut config = DummyConfig {
        registers: [0u32; 64],
    };

    // Byte writes. All byte accesses are aligned.
    assert!(config.write_byte(0xef, 0).is_ok());
    assert!(config.write_byte(0xbe, 1).is_ok());
    assert!(config.write_byte(0xad, 2).is_ok());
    assert!(config.write_byte(0xde, 3).is_ok());
    // Assert writes are visible in the register.
    assert_eq!(config.registers[0], 0xdead_beef);

    // Word writes.
    assert!(config.write_word(0xbeef, 4).is_ok());
    assert!(config.write_word(0xdead, 6).is_ok());
    // Assert writes are visible in the register.
    assert_eq!(config.registers[1], 0xdead_beef);

    // Unaligned word accesses.
    assert!(config.write_word(0, 5).is_err());
    assert!(config.write_word(0, 7).is_err());
    // Assert state hasn't changed.
    assert_eq!(config.registers[1], 0xdead_beef);

    assert_eq!(config.registers[2], 0);
    // Dword write.
    assert!(config.write_dword(0xdead_beef, 8).is_ok());
    // Assert write are visible in the register.
    assert_eq!(config.registers[2], 0xdead_beef);

    // Unaligned dword accesses.
    assert!(config.write_dword(0, 9).is_err());
    assert!(config.write_dword(0, 10).is_err());
    assert!(config.write_dword(0, 11).is_err());
    // Assert state hasn't changed.
    assert_eq!(config.registers[2], 0xdead_beef);
}

#[test]
fn test_byte_write_preserves_other_lanes() {
    let mut config = DummyConfig {
        registers: [0u32; 64],
    };
    config.registers[0] = 0xdead_beef;

    assert!(config.write_byte(0x42, 1).is_ok());
    assert_eq!(config.registers[0], 0xdead_42ef);
    assert_eq!(config.read_byte(0).unwrap(), 0xef);
    assert_eq!(config.read_byte(1).unwrap(), 0x42);
    assert_eq!(config.read_byte(2).unwrap(), 0xad);
    assert_eq!(config.read_byte(3).unwrap(), 0xde);
}

#[test]
fn test_word_write_preserves_other_half() {
    let mut config = DummyConfig {
        registers: [0u32; 64],
    };
    config.registers[0] = 0xdead_beef;

    assert!(config.write_word(0x1234, 2).is_ok());
    assert_eq!(config.registers[0], 0x1234_beef);
    assert!(config.write_word(0x5678, 0).is_ok());
    assert_eq!(config.registers[0], 0x1234_5678);
}

#[test]
fn test_out_of_bounds_register_access() {
    let mut config = DummyConfig {
        registers: [0u32; 64],
    };

    // Offset 256 is register 64, one past the backing store.
    match config.read_dword(256) {
        Err(Error::OffsetOutOfBounds) => {}
        _ => assert!(false),
    }
    match config.read_word(256) {
        Err(Error::OffsetOutOfBounds) => {}
        _ => assert!(false),
    }
    match config.read_byte(256) {
        Err(Error::OffsetOutOfBounds) => {}
        _ => assert!(false),
    }
    match config.write_dword(1, 256) {
        Err(Error::OffsetOutOfBounds) => {}
        _ => assert!(false),
    }
    match config.write_word(1, 256) {
        Err(Error::OffsetOutOfBounds) => {}
        _ => assert!(false),
    }
    match config.write_byte(1, 256) {
        Err(Error::OffsetOutOfBounds) => {}
        _ => assert!(false),
    }
}

#[test]
fn test_named_field_accessors() {
    let mut config = DummyConfig {
        registers: [0u32; 64],
    };

    assert!(config.write_vendor_id(0x8086).is_ok());
    assert!(config.write_device_id(0x1237).is_ok());
    assert!(config.write_command(0x0006).is_ok());
    assert!(config.write_status(0x0280).is_ok());
    assert!(config.write_revision_id(0x02).is_ok());
    assert!(config.write_prog_if(0x01).is_ok());
    assert!(config.write_subclass(0x80).is_ok());
    assert!(config.write_class_code(0x06).is_ok());
    assert!(config.write_cache_line_size(0x10).is_ok());
    assert!(config.write_latency_timer(0x20).is_ok());
    assert!(config.write_header_type(0x01).is_ok());
    assert!(config.write_bist(0x40).is_ok());

    assert_eq!(config.vendor_id().unwrap(), 0x8086);
    assert_eq!(config.device_id().unwrap(), 0x1237);
    assert_eq!(config.command().unwrap(), 0x0006);
    assert_eq!(config.status().unwrap(), 0x0280);
    assert_eq!(config.revision_id().unwrap(), 0x02);
    assert_eq!(config.prog_if().unwrap(), 0x01);
    assert_eq!(config.subclass().unwrap(), 0x80);
    assert_eq!(config.class_code().unwrap(), 0x06);
    assert_eq!(config.cache_line_size().unwrap(), 0x10);
    assert_eq!(config.latency_timer().unwrap(), 0x20);
    assert_eq!(config.header_type().unwrap(), 0x01);
    assert_eq!(config.bist().unwrap(), 0x40);

    // The named fields sit in the first four registers, packed
    // little-endian.
    assert_eq!(config.registers[0], 0x1237_8086);
    assert_eq!(config.registers[1], 0x0280_0006);
    assert_eq!(config.registers[2], 0x0680_0102);
    assert_eq!(config.registers[3], 0x4001_2010);
}
