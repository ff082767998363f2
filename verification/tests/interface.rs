// Licensed under the Apache-2.0 license

use ocp::cms::slice_fifo::SliceFifoRegion;
use ocp::cms::slice_indirect::SliceIndirectRegion;
use ocp::error::OcpError;
use ocp::interface::{RecoveryAction, RecoveryDeviceConfig, RecoveryStateMachine};
use ocp::protocol::device_id::{DeviceDescriptor, DeviceId, PciVendorDescriptor};
use ocp::protocol::device_reset::{DeviceReset, ForcedRecoveryMode, InterfaceControl, ResetControl};
use ocp::protocol::device_status::{DeviceStatusValue, ProtocolError, RecoveryReasonCode};
use ocp::protocol::hw_status::{CompositeTemperature, HwStatus, HwStatusFlags};
use ocp::protocol::indirect_fifo_status::FifoCmsRegionType;
use ocp::protocol::indirect_status::{CmsRegionType, IndirectStatus, StatusFlags};
use ocp::protocol::prot_cap::{RecoveryProtocolCapabilities, MAGIC};
use ocp::protocol::recovery_ctrl::{ActivateRecoveryImage, ImageSelection};
use ocp::protocol::recovery_status::{DeviceRecoveryStatus, RecoveryStatusByte0};
use ocp::transport::{Timeout, Transport};
use ocp::vendor::{VendorCapabilities, VendorHandler};

struct MockVendorHandler {
    caps: VendorCapabilities,
    heartbeat_val: u16,
    vendor_status_data: Vec<u8>,
    hw_flags: HwStatusFlags,
    hw_vendor_status_byte: u8,
    hw_composite_temp: CompositeTemperature,
    hw_vendor_specific: Vec<u8>,
}

impl MockVendorHandler {
    fn new() -> Self {
        Self {
            caps: VendorCapabilities(0),
            heartbeat_val: 0,
            vendor_status_data: Vec::new(),
            hw_flags: HwStatusFlags(0),
            hw_vendor_status_byte: 0,
            hw_composite_temp: CompositeTemperature::NoData,
            hw_vendor_specific: Vec::new(),
        }
    }

    fn with_all_caps() -> Self {
        Self {
            caps: VendorCapabilities(0b0011_1111),
            ..Self::new()
        }
    }
}

impl VendorHandler for MockVendorHandler {
    fn capabilities(&self) -> VendorCapabilities {
        self.caps
    }

    fn execute_reset(&mut self, _reset: &DeviceReset) {}

    fn handle_vendor_write(&mut self, _data: &[u8]) -> Result<(), OcpError> {
        Ok(())
    }

    fn handle_vendor_read(&self, _buf: &mut [u8]) -> Result<usize, OcpError> {
        Ok(0)
    }

    fn vendor_device_status(&self, buf: &mut [u8]) -> usize {
        let len = self.vendor_status_data.len();
        buf[..len].copy_from_slice(&self.vendor_status_data);
        len
    }

    fn heartbeat(&self) -> u16 {
        self.heartbeat_val
    }

    fn hw_status(&self) -> HwStatus<'_> {
        HwStatus::new(
            self.hw_flags,
            self.hw_vendor_status_byte,
            self.hw_composite_temp,
            &self.hw_vendor_specific,
        )
        .expect("MockVendorHandler: hw_status fields are valid")
    }
}

struct MockTransport {
    recv_data: Vec<Vec<u8>>,
    recv_idx: usize,
    sent: Vec<Vec<u8>>,
}

impl MockTransport {
    fn new() -> Self {
        Self {
            recv_data: Vec::new(),
            recv_idx: 0,
            sent: Vec::new(),
        }
    }

    fn enqueue(&mut self, msg: Vec<u8>) {
        self.recv_data.push(msg);
    }
}

impl Transport for MockTransport {
    fn recv_msg(&mut self, _timeout: Timeout) -> Result<&[u8], OcpError> {
        if self.recv_idx < self.recv_data.len() {
            let idx = self.recv_idx;
            self.recv_idx += 1;
            Ok(&self.recv_data[idx])
        } else {
            Err(OcpError::TransportTimeout)
        }
    }

    fn send_msg(&mut self, msg: &[u8]) -> Result<(), OcpError> {
        self.sent.push(msg.to_vec());
        Ok(())
    }
}

fn test_config() -> RecoveryDeviceConfig<'static> {
    let desc = DeviceDescriptor::PciVendor(PciVendorDescriptor {
        vendor_id: 0x1234,
        device_id: 0x5678,
        subsystem_vendor_id: 0,
        subsystem_id: 0,
        revision_id: 0,
    });
    RecoveryDeviceConfig {
        device_id: DeviceId::new(desc, &[]).unwrap(),
        major_version: 1,
        minor_version: 1,
        max_response_time: 17,
        heartbeat_period: 0,
        local_c_image_support: true,
    }
}

#[test]
fn default_state_after_construction() {
    let transport = MockTransport::new();
    let sm = RecoveryStateMachine::new(
        test_config(),
        transport,
        vec![],
        vec![],
        MockVendorHandler::new(),
    )
    .unwrap();

    assert_eq!(sm.device_status_value, DeviceStatusValue::StatusPending);
    assert_eq!(sm.protocol_error, ProtocolError::NoError);
    assert_eq!(sm.recovery_reason, RecoveryReasonCode::NoBootFailure);

    assert_eq!(
        sm.recovery_status.status(),
        DeviceRecoveryStatus::NotInRecovery
    );
    assert_eq!(sm.recovery_status.image_index(), 0);

    assert_eq!(sm.recovery_ctrl.cms, 0);
    assert_eq!(
        sm.recovery_ctrl.image_selection,
        ImageSelection::NoOperation
    );
    assert_eq!(
        sm.recovery_ctrl.activate,
        ActivateRecoveryImage::DoNotActivate
    );

    assert_eq!(sm.device_reset.reset_control, ResetControl::NoReset);
    assert_eq!(sm.device_reset.forced_recovery, ForcedRecoveryMode::NoForcedRecovery);
    assert_eq!(
        sm.device_reset.interface_control,
        InterfaceControl::DisableMastering
    );

    assert_eq!(sm.indirect_ctrl.cms, 0);
    assert_eq!(sm.indirect_ctrl.imo, 0);

    assert_eq!(sm.indirect_fifo_ctrl.cms, 0);
    assert!(!sm.indirect_fifo_ctrl.reset);
    assert_eq!(sm.indirect_fifo_ctrl.image_size, 0);

    assert_eq!(sm.cms_count, 0);
}

#[test]
fn process_command_stub_returns_none() {
    let mut transport = MockTransport::new();
    transport.enqueue(vec![0x22]); // PROT_CAP command code
    let mut sm = RecoveryStateMachine::new(
        test_config(),
        transport,
        vec![],
        vec![],
        MockVendorHandler::new(),
    )
    .unwrap();

    let action = sm.process_command(Timeout::Never).unwrap();
    assert_eq!(action, RecoveryAction::NoAction);
    // The PROT_CAP read is answered with its response.
    let expected = sm.handle_prot_cap_read().unwrap();
    assert_eq!(sm.transport.sent, vec![expected.to_vec()]);
}

#[test]
fn process_command_propagates_transport_error() {
    let transport = MockTransport::new();
    let mut sm = RecoveryStateMachine::new(
        test_config(),
        transport,
        vec![],
        vec![],
        MockVendorHandler::new(),
    )
    .unwrap();

    let err = sm.process_command(Timeout::Never).unwrap_err();
    assert_eq!(err, OcpError::TransportTimeout);
}

#[test]
fn lookup_indirect_region_finds_match() {
    let mut buf0 = [0u8; 64];
    let mut buf3 = [0u8; 64];
    let mut r0 = SliceIndirectRegion::new(&mut buf0, CmsRegionType::CodeSpace).unwrap();
    let mut r3 = SliceIndirectRegion::new(&mut buf3, CmsRegionType::Log).unwrap();
    let regions = vec![(0, r0), (3, r3)];

    let transport = MockTransport::new();
    let mut sm = RecoveryStateMachine::new(
        test_config(),
        transport,
        regions,
        vec![],
        MockVendorHandler::new(),
    )
    .unwrap();

    assert!(sm.lookup_indirect_region(0).is_some());
    assert!(sm.lookup_indirect_region(3).is_some());
    assert!(sm.lookup_indirect_region(1).is_none());
    assert!(sm.lookup_indirect_region(255).is_none());
}

#[test]
fn lookup_fifo_region_finds_match() {
    let mut buf = [0u8; 64];
    let mut region = SliceFifoRegion::new(&mut buf, FifoCmsRegionType::CodeSpace, 16).unwrap();
    let regions = vec![(5, region)];

    let transport = MockTransport::new();
    let mut sm = RecoveryStateMachine::new(
        test_config(),
        transport,
        vec![],
        regions,
        MockVendorHandler::new(),
    )
    .unwrap();

    assert!(sm.lookup_fifo_region(5).is_some());
    assert!(sm.lookup_fifo_region(0).is_none());
    assert!(sm.lookup_fifo_region(3).is_none());
}

#[test]
fn set_protocol_error_updates_state() {
    let transport = MockTransport::new();
    let mut sm = RecoveryStateMachine::new(
        test_config(),
        transport,
        vec![],
        vec![],
        MockVendorHandler::new(),
    )
    .unwrap();

    assert_eq!(sm.protocol_error, ProtocolError::NoError);
    sm.set_protocol_error(ProtocolError::UnsupportedCommand);
    assert_eq!(sm.protocol_error, ProtocolError::UnsupportedCommand);
}

// -- PROT_CAP handler tests --

#[test]
fn prot_cap_read_returns_magic_version_and_config() {
    let transport = MockTransport::new();
    let sm = RecoveryStateMachine::new(
        test_config(),
        transport,
        vec![],
        vec![],
        MockVendorHandler::new(),
    )
    .unwrap();

    let msg = sm.handle_prot_cap_read().unwrap();
    assert_eq!(&msg[0..8], &MAGIC);
    assert_eq!(msg[8], 1); // major
    assert_eq!(msg[9], 1); // minor
    assert_eq!(msg[13], 17); // max_response_time
    assert_eq!(msg[14], 0); // heartbeat_period
}

#[test]
fn prot_cap_read_no_regions_reports_local_c_image() {
    let transport = MockTransport::new();
    let sm = RecoveryStateMachine::new(
        test_config(),
        transport,
        vec![],
        vec![],
        MockVendorHandler::new(),
    )
    .unwrap();

    let msg = sm.handle_prot_cap_read().unwrap();
    let caps_raw = u16::from_le_bytes([msg[10], msg[11]]);
    let caps = RecoveryProtocolCapabilities(caps_raw);

    assert!(caps.identification());
    assert!(caps.device_status());
    assert!(caps.local_c_image_support());
    assert!(!caps.push_c_image_support());
    assert!(!caps.recovery_memory_access());
    assert!(!caps.fifo_cms_support());
    assert_eq!(msg[12], 0);
}

#[test]
fn prot_cap_read_with_indirect_code_sets_push_and_memory_access() {
    let mut buf = [0u8; 64];
    let mut region = SliceIndirectRegion::new(&mut buf, CmsRegionType::CodeSpace).unwrap();
    let regions = vec![(0, region)];

    let transport = MockTransport::new();
    let sm = RecoveryStateMachine::new(
        test_config(),
        transport,
        regions,
        vec![],
        MockVendorHandler::new(),
    )
    .unwrap();

    let msg = sm.handle_prot_cap_read().unwrap();
    let caps_raw = u16::from_le_bytes([msg[10], msg[11]]);
    let caps = RecoveryProtocolCapabilities(caps_raw);

    assert!(caps.push_c_image_support());
    assert!(caps.recovery_memory_access());
    assert!(!caps.fifo_cms_support());
    assert_eq!(msg[12], 1);
}

#[test]
fn prot_cap_read_with_fifo_only_sets_push_and_fifo() {
    let mut buf = [0u8; 64];
    let mut region = SliceFifoRegion::new(&mut buf, FifoCmsRegionType::CodeSpace, 16).unwrap();
    let regions = vec![(2, region)];

    let transport = MockTransport::new();
    let sm = RecoveryStateMachine::new(
        test_config(),
        transport,
        vec![],
        regions,
        MockVendorHandler::new(),
    )
    .unwrap();

    let msg = sm.handle_prot_cap_read().unwrap();
    let caps_raw = u16::from_le_bytes([msg[10], msg[11]]);
    let caps = RecoveryProtocolCapabilities(caps_raw);

    // Spec 1.1 deviation: push_c_image_support is set for FIFO-only
    // configurations even without recovery_memory_access.
    assert!(caps.push_c_image_support());
    assert!(caps.fifo_cms_support());
    assert!(!caps.recovery_memory_access());
    assert_eq!(msg[12], 1);
}

#[test]
fn prot_cap_read_cms_count_is_total_regions() {
    let mut buf0 = [0u8; 64];
    let mut buf1 = [0u8; 64];
    let mut r0 = SliceIndirectRegion::new(&mut buf0, CmsRegionType::CodeSpace).unwrap();
    let mut r1 = SliceIndirectRegion::new(&mut buf1, CmsRegionType::Log).unwrap();
    let regions = vec![(0, r0), (7, r1)];

    let transport = MockTransport::new();
    let sm = RecoveryStateMachine::new(
        test_config(),
        transport,
        regions,
        vec![],
        MockVendorHandler::new(),
    )
    .unwrap();

    let msg = sm.handle_prot_cap_read().unwrap();
    assert_eq!(msg[12], 2); // 2 regions total (indices are not contiguous)
}

#[test]
fn prot_cap_read_cms_count_spans_indirect_and_fifo() {
    let mut ibuf = [0u8; 64];
    let mut fbuf = [0u8; 64];
    let mut ir = SliceIndirectRegion::new(&mut ibuf, CmsRegionType::CodeSpace).unwrap();
    let mut fr = SliceFifoRegion::new(&mut fbuf, FifoCmsRegionType::CodeSpace, 16).unwrap();
    let indirect = vec![(0, ir)];
    let fifo = vec![(1, fr)];

    let transport = MockTransport::new();
    let sm = RecoveryStateMachine::new(
        test_config(),
        transport,
        indirect,
        fifo,
        MockVendorHandler::new(),
    )
    .unwrap();

    let msg = sm.handle_prot_cap_read().unwrap();
    assert_eq!(msg[12], 2); // 1 indirect + 1 fifo = 2
}

#[test]
fn new_rejects_indirect_without_cms0_code() {
    let mut buf = [0u8; 64];
    let mut region = SliceIndirectRegion::new(&mut buf, CmsRegionType::Log).unwrap();
    let regions = vec![(0, region)];

    let transport = MockTransport::new();
    let result = RecoveryStateMachine::new(
        test_config(),
        transport,
        regions,
        vec![],
        MockVendorHandler::new(),
    );

    assert!(matches!(result, Err(OcpError::IndirectCms0NotCodeSpace)));
}

#[test]
fn new_rejects_indirect_missing_cms0() {
    let mut buf = [0u8; 64];
    let mut region = SliceIndirectRegion::new(&mut buf, CmsRegionType::CodeSpace).unwrap();
    let regions = vec![(1, region)];

    let transport = MockTransport::new();
    let result = RecoveryStateMachine::new(
        test_config(),
        transport,
        regions,
        vec![],
        MockVendorHandler::new(),
    );

    assert!(matches!(result, Err(OcpError::IndirectCms0NotCodeSpace)));
}

#[test]
fn prot_cap_write_sets_unsupported_command_error() {
    let transport = MockTransport::new();
    let mut sm = RecoveryStateMachine::new(
        test_config(),
        transport,
        vec![],
        vec![],
        MockVendorHandler::new(),
    )
    .unwrap();

    sm.handle_prot_cap_write();
    assert_eq!(sm.protocol_error, ProtocolError::UnsupportedCommand);
}

#[test]
fn prot_cap_read_vendor_caps_all_set() {
    let transport = MockTransport::new();
    let sm = RecoveryStateMachine::new(
        test_config(),
        transport,
        vec![],
        vec![],
        MockVendorHandler::with_all_caps(),
    )
    .unwrap();

    let msg = sm.handle_prot_cap_read().unwrap();
    let caps_raw = u16::from_le_bytes([msg[10], msg[11]]);
    let caps = RecoveryProtocolCapabilities(caps_raw);

    assert!(caps.forced_recovery());
    assert!(caps.mgmt_reset());
    assert!(caps.device_reset());
    assert!(caps.interface_isolation());
    assert!(caps.hardware_status());
    assert!(caps.vendor_command());
}

#[test]
fn prot_cap_read_vendor_caps_none_set() {
    let transport = MockTransport::new();
    let sm = RecoveryStateMachine::new(
        test_config(),
        transport,
        vec![],
        vec![],
        MockVendorHandler::new(),
    )
    .unwrap();

    let msg = sm.handle_prot_cap_read().unwrap();
    let caps_raw = u16::from_le_bytes([msg[10], msg[11]]);
    let caps = RecoveryProtocolCapabilities(caps_raw);

    assert!(!caps.forced_recovery());
    assert!(!caps.mgmt_reset());
    assert!(!caps.device_reset());
    assert!(!caps.interface_isolation());
    assert!(!caps.hardware_status());
    assert!(!caps.vendor_command());
}

// -- Duplicate CMS index tests --

#[test]
fn new_rejects_duplicate_indirect_indices() {
    let mut buf0 = [0u8; 64];
    let mut buf1 = [0u8; 64];
    let mut r0 = SliceIndirectRegion::new(&mut buf0, CmsRegionType::CodeSpace).unwrap();
    let mut r1 = SliceIndirectRegion::new(&mut buf1, CmsRegionType::Log).unwrap();
    let regions = vec![(0, r0), (0, r1)];

    let transport = MockTransport::new();
    let result = RecoveryStateMachine::new(
        test_config(),
        transport,
        regions,
        vec![],
        MockVendorHandler::new(),
    );

    assert!(matches!(result, Err(OcpError::DuplicateCmsIndex)));
}

#[test]
fn new_rejects_duplicate_fifo_indices() {
    let mut buf0 = [0u8; 64];
    let mut buf1 = [0u8; 64];
    let mut r0 = SliceFifoRegion::new(&mut buf0, FifoCmsRegionType::CodeSpace, 16).unwrap();
    let mut r1 = SliceFifoRegion::new(&mut buf1, FifoCmsRegionType::Log, 16).unwrap();
    let regions = vec![(2, r0), (2, r1)];

    let transport = MockTransport::new();
    let result = RecoveryStateMachine::new(
        test_config(),
        transport,
        vec![],
        regions,
        MockVendorHandler::new(),
    );

    assert!(matches!(result, Err(OcpError::DuplicateCmsIndex)));
}

#[test]
fn new_rejects_overlapping_indirect_and_fifo_index() {
    let mut ibuf = [0u8; 64];
    let mut fbuf = [0u8; 64];
    let mut ir = SliceIndirectRegion::new(&mut ibuf, CmsRegionType::CodeSpace).unwrap();
    let mut fr = SliceFifoRegion::new(&mut fbuf, FifoCmsRegionType::CodeSpace, 16).unwrap();
    let indirect = vec![(0, ir)];
    let fifo = vec![(0, fr)];

    let transport = MockTransport::new();
    let result = RecoveryStateMachine::new(
        test_config(),
        transport,
        indirect,
        fifo,
        MockVendorHandler::new(),
    );

    assert!(matches!(result, Err(OcpError::DuplicateCmsIndex)));
}

// -- DEVICE_ID handler tests --

#[test]
fn device_id_read_returns_serialized_id() {
    let transport = MockTransport::new();
    let config = test_config();
    let expected = config.device_id.to_message();
    let sm = RecoveryStateMachine::new(
        config,
        transport,
        vec![],
        vec![],
        MockVendorHandler::new(),
    )
    .unwrap();

    let (buf, len) = sm.handle_device_id_read();
    assert_eq!(len, expected.1);
    assert_eq!(&buf[..len], &expected.0[..expected.1]);
}

#[test]
fn device_id_write_sets_unsupported_command_error() {
    let transport = MockTransport::new();
    let mut sm = RecoveryStateMachine::new(
        test_config(),
        transport,
        vec![],
        vec![],
        MockVendorHandler::new(),
    )
    .unwrap();

    sm.handle_device_id_write();
    assert_eq!(sm.protocol_error, ProtocolError::UnsupportedCommand);
}

// -- DEVICE_STATUS handler tests --

#[test]
fn device_status_read_returns_default_status() {
    let transport = MockTransport::new();
    let mut sm = RecoveryStateMachine::new(
        test_config(),
        transport,
        vec![],
        vec![],
        MockVendorHandler::new(),
    )
    .unwrap();

    let (msg, len) = sm.handle_device_status_read().unwrap();
    assert_eq!(len, 7);
    assert_eq!(msg[0], DeviceStatusValue::StatusPending.to_byte());
    assert_eq!(msg[1], ProtocolError::NoError.to_byte());
    assert_eq!(u16::from_le_bytes([msg[2], msg[3]]), 0x00); // NoBootFailure
    assert_eq!(u16::from_le_bytes([msg[4], msg[5]]), 0); // heartbeat
    assert_eq!(msg[6], 0); // vendor status length
}

#[test]
fn device_status_read_clears_protocol_error() {
    let transport = MockTransport::new();
    let mut sm = RecoveryStateMachine::new(
        test_config(),
        transport,
        vec![],
        vec![],
        MockVendorHandler::new(),
    )
    .unwrap();

    sm.set_protocol_error(ProtocolError::UnsupportedCommand);

    let (msg, _) = sm.handle_device_status_read().unwrap();
    assert_eq!(msg[1], ProtocolError::UnsupportedCommand.to_byte());
    assert_eq!(sm.protocol_error, ProtocolError::NoError);
}

#[test]
fn device_status_read_includes_vendor_status() {
    let transport = MockTransport::new();
    let mut vendor = MockVendorHandler::new();
    vendor.vendor_status_data = vec![0xDE, 0xAD, 0xBE, 0xEF];
    let mut sm =
        RecoveryStateMachine::new(test_config(), transport, vec![], vec![], vendor)
            .unwrap();

    let (msg, len) = sm.handle_device_status_read().unwrap();
    assert_eq!(len, 11); // 7 + 4 vendor bytes
    assert_eq!(msg[6], 4);
    assert_eq!(&msg[7..11], &[0xDE, 0xAD, 0xBE, 0xEF]);
}

#[test]
fn device_status_read_heartbeat_from_vendor() {
    let transport = MockTransport::new();
    let mut vendor = MockVendorHandler::new();
    vendor.heartbeat_val = 42;
    let mut sm =
        RecoveryStateMachine::new(test_config(), transport, vec![], vec![], vendor)
            .unwrap();

    let (msg, _) = sm.handle_device_status_read().unwrap();
    assert_eq!(u16::from_le_bytes([msg[4], msg[5]]), 42);
}

#[test]
fn device_status_write_sets_unsupported_command_error() {
    let transport = MockTransport::new();
    let mut sm = RecoveryStateMachine::new(
        test_config(),
        transport,
        vec![],
        vec![],
        MockVendorHandler::new(),
    )
    .unwrap();

    sm.handle_device_status_write();
    assert_eq!(sm.protocol_error, ProtocolError::UnsupportedCommand);
}

// -- RECOVERY_STATUS handler tests --

#[test]
fn recovery_status_read_returns_default() {
    let transport = MockTransport::new();
    let sm = RecoveryStateMachine::new(
        test_config(),
        transport,
        vec![],
        vec![],
        MockVendorHandler::new(),
    )
    .unwrap();

    let msg = sm.handle_recovery_status_read();
    assert_eq!(msg.len(), 2);
    let byte0 = RecoveryStatusByte0(msg[0]);
    assert_eq!(byte0.status(), DeviceRecoveryStatus::NotInRecovery.to_byte());
    assert_eq!(byte0.image_index(), 0);
    assert_eq!(msg[1], 0); // vendor status
}

#[test]
fn recovery_status_write_sets_unsupported_command_error() {
    let transport = MockTransport::new();
    let mut sm = RecoveryStateMachine::new(
        test_config(),
        transport,
        vec![],
        vec![],
        MockVendorHandler::new(),
    )
    .unwrap();

    sm.handle_recovery_status_write();
    assert_eq!(sm.protocol_error, ProtocolError::UnsupportedCommand);
}

// -- HW_STATUS handler tests --

#[test]
fn hw_status_read_returns_vendor_hw_status() {
    let transport = MockTransport::new();
    let mut vendor = MockVendorHandler::new();
    let mut flags = HwStatusFlags(0);
    flags.set_temp_critical(true);
    vendor.hw_flags = flags;
    vendor.hw_vendor_status_byte = 0xAB;
    vendor.hw_composite_temp = CompositeTemperature::Celsius(42);
    vendor.hw_vendor_specific = vec![0x01, 0x02, 0x03];

    let sm = RecoveryStateMachine::new(test_config(), transport, vec![], vec![], vendor)
        .unwrap();

    let (msg, len) = sm.handle_hw_status_read();
    assert_eq!(len, 7); // 4 header + 3 vendor specific
    assert_eq!(msg[0], 0x01); // temp_critical flag
    assert_eq!(msg[1], 0xAB); // vendor hw status byte
    assert_eq!(msg[2], 42); // composite temp 42°C
    assert_eq!(msg[3], 3); // vendor specific length
    assert_eq!(&msg[4..7], &[0x01, 0x02, 0x03]);
}

#[test]
fn hw_status_write_sets_unsupported_command_error() {
    let transport = MockTransport::new();
    let mut sm = RecoveryStateMachine::new(
        test_config(),
        transport,
        vec![],
        vec![],
        MockVendorHandler::new(),
    )
    .unwrap();

    sm.handle_hw_status_write();
    assert_eq!(sm.protocol_error, ProtocolError::UnsupportedCommand);
}

// -- INDIRECT_STATUS handler tests --

#[test]
fn indirect_status_read_returns_region_type_and_size() {
    let mut buf = [0u8; 64];
    let mut region = SliceIndirectRegion::new(&mut buf, CmsRegionType::CodeSpace).unwrap();
    let regions = vec![(0, region)];

    let transport = MockTransport::new();
    let mut sm = RecoveryStateMachine::new(
        test_config(),
        transport,
        regions,
        vec![],
        MockVendorHandler::new(),
    )
    .unwrap();

    let msg = sm.handle_indirect_status_read();
    let status = IndirectStatus::new(StatusFlags(0), CmsRegionType::CodeSpace, false, 64);
    assert_eq!(msg, status.to_message());
}

#[test]
fn indirect_status_read_unsupported_for_invalid_index() {
    let mut buf = [0u8; 64];
    let mut region = SliceIndirectRegion::new(&mut buf, CmsRegionType::CodeSpace).unwrap();
    let regions = vec![(0, region)];

    let transport = MockTransport::new();
    let mut sm = RecoveryStateMachine::new(
        test_config(),
        transport,
        regions,
        vec![],
        MockVendorHandler::new(),
    )
    .unwrap();

    sm.indirect_ctrl.cms = 99;
    let msg = sm.handle_indirect_status_read();
    let expected =
        IndirectStatus::new(StatusFlags(0), CmsRegionType::Unsupported, false, 0).to_message();
    assert_eq!(msg, expected);
}

#[test]
fn indirect_status_read_unsupported_for_fifo_index() {
    let mut ibuf = [0u8; 64];
    let mut fbuf = [0u8; 64];
    let mut ir = SliceIndirectRegion::new(&mut ibuf, CmsRegionType::CodeSpace).unwrap();
    let mut fr = SliceFifoRegion::new(&mut fbuf, FifoCmsRegionType::CodeSpace, 16).unwrap();
    let indirect = vec![(0, ir)];
    let fifo = vec![(1, fr)];

    let transport = MockTransport::new();
    let mut sm = RecoveryStateMachine::new(
        test_config(),
        transport,
        indirect,
        fifo,
        MockVendorHandler::new(),
    )
    .unwrap();

    sm.indirect_ctrl.cms = 1;
    let msg = sm.handle_indirect_status_read();
    let expected =
        IndirectStatus::new(StatusFlags(0), CmsRegionType::Unsupported, false, 0).to_message();
    assert_eq!(msg, expected);
}

#[test]
fn indirect_status_read_overflow_reported_and_cleared() {
    let mut buf = [0u8; 4];
    let mut region = SliceIndirectRegion::new(&mut buf, CmsRegionType::CodeSpace).unwrap();
    region.write(&[0xAA; 4]).unwrap();

    let regions = vec![(0, region)];

    let transport = MockTransport::new();
    let mut sm = RecoveryStateMachine::new(
        test_config(),
        transport,
        regions,
        vec![],
        MockVendorHandler::new(),
    )
    .unwrap();

    let msg = sm.handle_indirect_status_read();
    assert_eq!(msg[0] & 0x01, 0x01, "overflow flag should be set");

    let msg2 = sm.handle_indirect_status_read();
    assert_eq!(msg2[0] & 0x01, 0x00, "overflow flag should be cleared");
}

#[test]
fn indirect_status_write_sets_unsupported_command_error() {
    let transport = MockTransport::new();
    let mut sm = RecoveryStateMachine::new(
        test_config(),
        transport,
        vec![],
        vec![],
        MockVendorHandler::new(),
    )
    .unwrap();

    sm.handle_indirect_status_write();
    assert_eq!(sm.protocol_error, ProtocolError::UnsupportedCommand);
}

#[test]
fn complete_activation_success_runs_recovery_image() {
    let mut sm = RecoveryStateMachine::new(
        test_config(),
        MockTransport::new(),
        vec![],
        vec![],
        MockVendorHandler::new(),
    )
    .unwrap();
    sm.complete_activation(true);
    assert_eq!(sm.recovery_status.status(), DeviceRecoveryStatus::Success);
    assert_eq!(sm.recovery_status.image_index(), 0);
    assert_eq!(sm.device_status_value, DeviceStatusValue::RunningRecoveryImage);
    let msg = sm.handle_recovery_status_read();
    let byte0 = RecoveryStatusByte0(msg[0]);
    assert_eq!(DeviceRecoveryStatus::try_from(byte0.status()), Ok(DeviceRecoveryStatus::Success));
}

#[test]
fn complete_activation_failure_reports_failed() {
    let mut sm = RecoveryStateMachine::new(
        test_config(),
        MockTransport::new(),
        vec![],
        vec![],
        MockVendorHandler::new(),
    )
    .unwrap();
    sm.complete_activation(false);
    assert_eq!(sm.recovery_status.status(), DeviceRecoveryStatus::Failed);
    assert_eq!(sm.device_status_value, DeviceStatusValue::StatusPending);
}

#[test]
fn recorded_error_is_reported_once() {
    let mut sm = RecoveryStateMachine::new(
        test_config(),
        MockTransport::new(),
        vec![],
        vec![],
        MockVendorHandler::new(),
    )
    .unwrap();
    sm.set_protocol_error(ProtocolError::LengthWriteError);
    let (first, _) = sm.handle_device_status_read().unwrap();
    assert_eq!(first[1], 0x03);
    let (second, _) = sm.handle_device_status_read().unwrap();
    assert_eq!(second[1], 0x00);
    assert_eq!(sm.protocol_error, ProtocolError::NoError);
}

#[test]
fn write_to_read_only_command_is_reported_then_cleared() {
    let mut sm = RecoveryStateMachine::new(
        test_config(),
        MockTransport::new(),
        vec![],
        vec![],
        MockVendorHandler::new(),
    )
    .unwrap();
    sm.handle_hw_status_write();
    let (msg, _) = sm.handle_device_status_read().unwrap();
    assert_eq!(msg[1], ProtocolError::UnsupportedCommand.to_byte());
    let (msg, _) = sm.handle_device_status_read().unwrap();
    assert_eq!(msg[1], ProtocolError::NoError.to_byte());
}

#[test]
fn new_rejects_too_many_regions() {
    let mut fifos = Vec::new();
    for i in 0..=255u16 {
        fifos.push((i as u8, SliceFifoRegion::new(&[0; 4], FifoCmsRegionType::Log, 1).unwrap()));
    }
    let err = RecoveryStateMachine::new(
        test_config(),
        MockTransport::new(),
        vec![],
        fifos,
        MockVendorHandler::new(),
    )
    .err()
    .unwrap();
    assert_eq!(err, OcpError::InvalidCmdBufferCount);
}

#[test]
fn prot_cap_read_without_any_recovery_source_fails() {
    let mut config = test_config();
    config.local_c_image_support = false;
    let sm = RecoveryStateMachine::new(config, MockTransport::new(), vec![], vec![], MockVendorHandler::new())
        .unwrap();
    assert_eq!(sm.handle_prot_cap_read().unwrap_err(), OcpError::ProtCapCImageSupportRequired);
}

fn machine_with(msgs: Vec<Vec<u8>>, vendor: MockVendorHandler) -> RecoveryStateMachine<'static, MockTransport, MockVendorHandler> {
    let mut transport = MockTransport::new();
    for m in msgs {
        transport.enqueue(m);
    }
    RecoveryStateMachine::new(test_config(), transport, vec![], vec![], vendor).unwrap()
}

#[test]
fn process_command_unknown_command_records_error() {
    let mut sm = machine_with(vec![vec![0x10], vec![0x24]], MockVendorHandler::new());
    assert_eq!(sm.process_command(Timeout::Never), Ok(RecoveryAction::NoAction));
    assert!(sm.transport.sent.is_empty());
    assert_eq!(sm.protocol_error, ProtocolError::UnsupportedCommand);
    // The next DEVICE_STATUS read reports the error and clears it.
    sm.process_command(Timeout::Never).unwrap();
    assert_eq!(sm.transport.sent.len(), 1);
    assert_eq!(sm.transport.sent[0][1], ProtocolError::UnsupportedCommand.to_byte());
    assert_eq!(sm.protocol_error, ProtocolError::NoError);
}

#[test]
fn process_command_write_to_read_only_command_records_error() {
    let mut sm = machine_with(vec![vec![0x23, 0x01]], MockVendorHandler::new());
    sm.process_command(Timeout::Never).unwrap();
    assert!(sm.transport.sent.is_empty());
    assert_eq!(sm.protocol_error, ProtocolError::UnsupportedCommand);
}

#[test]
fn process_command_recovery_only_command_while_pending_records_error() {
    let mut sm = machine_with(vec![vec![0x2A], vec![0x2A]], MockVendorHandler::new());
    sm.process_command(Timeout::Never).unwrap();
    assert!(sm.transport.sent.is_empty());
    assert_eq!(sm.protocol_error, ProtocolError::UnsupportedCommand);
    sm.device_status_value = DeviceStatusValue::RecoveryMode;
    sm.process_command(Timeout::Never).unwrap();
    let expected =
        IndirectStatus::new(StatusFlags(0), CmsRegionType::Unsupported, false, 0).to_message();
    assert_eq!(sm.transport.sent, vec![expected.to_vec()]);
}

#[test]
fn process_command_routes_reads_to_their_handlers() {
    let mut vendor = MockVendorHandler::with_all_caps();
    vendor.hw_vendor_status_byte = 0x5A;
    let mut sm = machine_with(
        vec![vec![0x23], vec![0x27], vec![0x28], vec![0x25], vec![0x26], vec![0x2D]],
        vendor,
    );
    // INDIRECT_FIFO_CTRL is recovery-only: leave the pending state first.
    sm.device_status_value = DeviceStatusValue::RecoveryMode;
    for _ in 0..6 {
        assert_eq!(sm.process_command(Timeout::Never), Ok(RecoveryAction::NoAction));
    }
    let (id, id_len) = sm.handle_device_id_read();
    let (hw, hw_len) = sm.handle_hw_status_read();
    assert_eq!(sm.transport.sent[0], id[..id_len].to_vec());
    assert_eq!(sm.transport.sent[1], sm.handle_recovery_status_read().to_vec());
    assert_eq!(sm.transport.sent[2], hw[..hw_len].to_vec());
    assert_eq!(sm.transport.sent[3], sm.device_reset.to_message().to_vec());
    assert_eq!(sm.transport.sent[4], sm.recovery_ctrl.to_message().to_vec());
    assert_eq!(sm.transport.sent[5], sm.indirect_fifo_ctrl.to_message().to_vec());
    assert_eq!(sm.protocol_error, ProtocolError::NoError);
}

#[test]
fn process_command_hw_status_needs_the_capability() {
    let mut sm = machine_with(vec![vec![0x28]], MockVendorHandler::new());
    sm.process_command(Timeout::Never).unwrap();
    assert!(sm.transport.sent.is_empty());
    assert_eq!(sm.protocol_error, ProtocolError::UnsupportedCommand);
}

#[test]
fn process_command_prot_cap_failure_records_general_error() {
    let mut config = test_config();
    config.local_c_image_support = false;
    let mut transport = MockTransport::new();
    transport.enqueue(vec![0x22]);
    let mut sm =
        RecoveryStateMachine::new(config, transport, vec![], vec![], MockVendorHandler::new()).unwrap();
    sm.process_command(Timeout::Never).unwrap();
    assert!(sm.transport.sent.is_empty());
    assert_eq!(sm.protocol_error, ProtocolError::GeneralProtocolError);
}
