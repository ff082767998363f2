use ocp::error::OcpError;
use ocp::protocol::device_status::{DeviceStatus, DeviceStatusValue, ProtocolError, RecoveryReasonCode};

#[test]
fn device_status_codes_round_trip() {
    for v in [
        DeviceStatusValue::StatusPending,
        DeviceStatusValue::Healthy,
        DeviceStatusValue::DeviceError,
        DeviceStatusValue::RecoveryMode,
        DeviceStatusValue::RecoveryPending,
        DeviceStatusValue::RunningRecoveryImage,
        DeviceStatusValue::BootFailure,
        DeviceStatusValue::FatalError,
    ] {
        assert_eq!(DeviceStatusValue::try_from(v.to_byte()), Ok(v));
    }
    assert_eq!(DeviceStatusValue::FatalError.to_byte(), 0x0F);
    assert!(DeviceStatusValue::try_from(0x06).is_err());
}

#[test]
fn protocol_error_codes_round_trip() {
    for e in [
        ProtocolError::NoError,
        ProtocolError::UnsupportedCommand,
        ProtocolError::UnsupportedParameter,
        ProtocolError::LengthWriteError,
        ProtocolError::CrcError,
        ProtocolError::GeneralProtocolError,
    ] {
        assert_eq!(ProtocolError::try_from(e.to_byte()), Ok(e));
    }
    assert_eq!(ProtocolError::GeneralProtocolError.to_byte(), 0xFF);
    assert_eq!(ProtocolError::try_from(0x05), Err(OcpError::DeviceStatusInvalidProtocolError));
}

#[test]
fn recovery_reason_codes() {
    assert_eq!(RecoveryReasonCode::ForcedRecovery.to_code(), 0x11);
    assert_eq!(RecoveryReasonCode::VendorSpecific(0x80).to_code(), 0x80);
}

#[test]
fn device_status_message_layout() {
    let vendor = [0xAB, 0xCD];
    let s = DeviceStatus::new(
        DeviceStatusValue::Healthy,
        ProtocolError::CrcError,
        RecoveryReasonCode::MissingMainFirmware,
        0x123,
        &vendor,
    )
    .unwrap();
    assert_eq!(s.message_len(), 9);
    let (msg, len) = s.to_message();
    assert_eq!(len, 9);
    assert_eq!(msg[..9], [0x01, 0x04, 0x0B, 0x00, 0x23, 0x01, 2, 0xAB, 0xCD]);
    assert!(msg[9..].iter().all(|b| *b == 0));
}

#[test]
fn device_status_errors() {
    let long = [0u8; 249];
    assert_eq!(
        DeviceStatus::new(DeviceStatusValue::Healthy, ProtocolError::NoError, RecoveryReasonCode::NoBootFailure, 0, &long)
            .unwrap_err(),
        OcpError::DeviceStatusVendorStatusTooLong
    );
    assert_eq!(
        DeviceStatus::new(DeviceStatusValue::Healthy, ProtocolError::NoError, RecoveryReasonCode::NoBootFailure, 0x1000, &[])
            .unwrap_err(),
        OcpError::DeviceStatusHeartbeatOutOfRange
    );
    assert_eq!(
        DeviceStatus::new(
            DeviceStatusValue::Healthy,
            ProtocolError::NoError,
            RecoveryReasonCode::VendorSpecific(0x7F),
            0,
            &[]
        )
        .unwrap_err(),
        OcpError::DeviceStatusInvalidVendorReasonCode
    );
}
