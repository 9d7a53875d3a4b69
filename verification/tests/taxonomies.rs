use vm_pci::bridge::PciBridgeSubclass;
use vm_pci::pci_config::{
    PciCapability, PciCapabilityId, PciClassCode, PciHeaderType, PciSubclass,
};

#[test]
fn test_class_code_decode_known() {
    assert_eq!(PciClassCode::from(0x00).value(), 0x00);
    assert_eq!(PciClassCode::from(0x01).value(), 0x01);
    assert_eq!(PciClassCode::from(0x06).value(), 0x06);
    assert_eq!(PciClassCode::from(0x12).value(), 0x12);
    assert!(matches!(PciClassCode::from(0x02), PciClassCode::NetworkController));
    assert!(matches!(PciClassCode::from(0x0c), PciClassCode::SerialBusController));
}

#[test]
fn test_class_code_decode_unknown() {
    // Codes outside the known set collapse to `Other`, never an error.
    assert!(matches!(PciClassCode::from(0x13), PciClassCode::Other));
    assert!(matches!(PciClassCode::from(0x7f), PciClassCode::Other));
    assert!(matches!(PciClassCode::from(0xff), PciClassCode::Other));
    assert_eq!(PciClassCode::from(0x7f).value(), 0xff);
}

#[test]
fn test_class_code_value() {
    assert_eq!(PciClassCode::TooOld.value(), 0x00);
    assert_eq!(PciClassCode::MassStorage.value(), 0x01);
    assert_eq!(PciClassCode::NetworkController.value(), 0x02);
    assert_eq!(PciClassCode::DisplayController.value(), 0x03);
    assert_eq!(PciClassCode::BridgeDevice.value(), 0x06);
    assert_eq!(PciClassCode::WirelessController.value(), 0x0d);
    assert_eq!(PciClassCode::NonEssentialInstrumentation.value(), 0x12);
    assert_eq!(PciClassCode::Other.value(), 0xff);
}

#[test]
fn test_capability_id_decode() {
    assert!(PciCapabilityId::from(0x01) == PciCapabilityId::PowerManagement);
    assert!(PciCapabilityId::from(0x05) == PciCapabilityId::MessageSignalledInterrupts);
    assert!(PciCapabilityId::from(0x10) == PciCapabilityId::PciExpress);
    assert!(PciCapabilityId::from(0x11) == PciCapabilityId::MsiX);
    assert!(PciCapabilityId::from(0x14) == PciCapabilityId::PciEnhancedAllocation);
}

#[test]
fn test_capability_id_unknown_decodes_to_list_id() {
    // Codes outside the known set collapse to the reserved `ListId`.
    assert!(PciCapabilityId::from(0x15) == PciCapabilityId::ListId);
    assert!(PciCapabilityId::from(0x7f) == PciCapabilityId::ListId);
    assert!(PciCapabilityId::from(0xff) == PciCapabilityId::ListId);
}

#[test]
fn test_capability_id_value() {
    assert_eq!(PciCapabilityId::ListId.value(), 0x00);
    assert_eq!(PciCapabilityId::PowerManagement.value(), 0x01);
    assert_eq!(PciCapabilityId::MessageSignalledInterrupts.value(), 0x05);
    assert_eq!(PciCapabilityId::PciExpress.value(), 0x10);
    assert_eq!(PciCapabilityId::MsiX.value(), 0x11);
    assert_eq!(PciCapabilityId::PciEnhancedAllocation.value(), 0x14);
}

#[test]
fn test_header_type_decode() {
    assert!(matches!(PciHeaderType::from(0x00), PciHeaderType::Device));
    assert!(matches!(PciHeaderType::from(0x01), PciHeaderType::PciToPciBridge));
    assert!(matches!(PciHeaderType::from(0x02), PciHeaderType::PciToCardbusBridge));
    assert!(matches!(PciHeaderType::from(0x03), PciHeaderType::Unknown));
    assert!(matches!(PciHeaderType::from(0xff), PciHeaderType::Unknown));
    assert_eq!(PciHeaderType::Device.value(), 0x00);
    assert_eq!(PciHeaderType::PciToPciBridge.value(), 0x01);
    assert_eq!(PciHeaderType::PciToCardbusBridge.value(), 0x02);
    assert_eq!(PciHeaderType::Unknown.value(), 0xff);
}

#[test]
fn test_bridge_subclass_decode_and_value() {
    assert!(matches!(PciBridgeSubclass::from(0x00), PciBridgeSubclass::HostBridge));
    assert!(matches!(PciBridgeSubclass::from(0x01), PciBridgeSubclass::IsaBridge));
    assert!(matches!(PciBridgeSubclass::from(0x04), PciBridgeSubclass::PciToPciBridge));
    assert!(matches!(PciBridgeSubclass::from(0x02), PciBridgeSubclass::OtherBridgeDevice));
    assert!(matches!(PciBridgeSubclass::from(0x80), PciBridgeSubclass::OtherBridgeDevice));
    assert!(matches!(PciBridgeSubclass::from(0xff), PciBridgeSubclass::OtherBridgeDevice));

    assert_eq!(PciBridgeSubclass::HostBridge.value(), 0x00);
    assert_eq!(PciBridgeSubclass::IsaBridge.value(), 0x01);
    assert_eq!(PciBridgeSubclass::PciToPciBridge.value(), 0x04);
    assert_eq!(PciBridgeSubclass::OtherBridgeDevice.value(), 0x80);
}

struct DummyMsixCap {
    data: [u8; 10],
}

impl PciCapability for DummyMsixCap {
    fn bytes(&self) -> &[u8] {
        &self.data
    }

    fn id(&self) -> PciCapabilityId {
        PciCapabilityId::MsiX
    }
}

#[test]
fn test_capability_trait_impl() {
    let cap = DummyMsixCap { data: [0u8; 10] };
    assert_eq!(cap.bytes().len(), 10);
    assert!(cap.id() == PciCapabilityId::MsiX);
    assert_eq!(cap.id().value(), 0x11);
}
