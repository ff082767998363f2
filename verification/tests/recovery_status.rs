// Licensed under the Apache-2.0 license

use ocp::error::OcpError;
use ocp::protocol::recovery_status::{DeviceRecoveryStatus, RecoveryStatus, RecoveryStatusByte0};

#[test]
fn awaiting_image_to_message() {
    let resp = RecoveryStatus::new(DeviceRecoveryStatus::AwaitingImage, 0, 0x00).unwrap();
    let msg = resp.to_message();

    assert_eq!(msg[0], 0x01);
    assert_eq!(msg[1], 0x00);
}

#[test]
fn success_with_image_index_to_message() {
    let resp = RecoveryStatus::new(DeviceRecoveryStatus::Success, 2, 0x00).unwrap();
    assert_eq!(resp.status(), DeviceRecoveryStatus::Success);
    assert_eq!(resp.image_index(), 2);

    let msg = resp.to_message();
    let byte0 = RecoveryStatusByte0(msg[0]);
    assert_eq!(byte0.status(), 0x03);
    assert_eq!(byte0.image_index(), 2);
}

#[test]
fn max_image_index_accepted() {
    let resp = RecoveryStatus::new(DeviceRecoveryStatus::AwaitingImage, 15, 0x00).unwrap();
    assert_eq!(resp.image_index(), 15);

    let msg = resp.to_message();
    let byte0 = RecoveryStatusByte0(msg[0]);
    assert_eq!(byte0.status(), 0x01);
    assert_eq!(byte0.image_index(), 15);
}

#[test]
fn image_index_out_of_range_rejected() {
    assert_eq!(
        RecoveryStatus::new(DeviceRecoveryStatus::AwaitingImage, 16, 0x00),
        Err(OcpError::RecoveryStatusImageIndexOutOfRange),
    );
}

#[test]
fn vendor_status_preserved() {
    let resp = RecoveryStatus::new(DeviceRecoveryStatus::Failed, 0, 0xAB).unwrap();
    let msg = resp.to_message();

    assert_eq!(msg[1], 0xAB);
}

#[test]
fn all_status_codes_serialize() {
    let codes = [
        (DeviceRecoveryStatus::NotInRecovery, 0x0u8),
        (DeviceRecoveryStatus::AwaitingImage, 0x1),
        (DeviceRecoveryStatus::BootingImage, 0x2),
        (DeviceRecoveryStatus::Success, 0x3),
        (DeviceRecoveryStatus::Failed, 0xC),
        (DeviceRecoveryStatus::AuthenticationError, 0xD),
        (DeviceRecoveryStatus::ErrorEnteringRecovery, 0xE),
        (DeviceRecoveryStatus::InvalidCms, 0xF),
    ];
    for (status, expected) in codes {
        let resp = RecoveryStatus::new(status, 0, 0).unwrap();
        let msg = resp.to_message();
        let byte0 = RecoveryStatusByte0(msg[0]);
        assert_eq!(byte0.status(), expected, "mismatch for {:?}", status);
    }
}

#[test]
fn reserved_status_codes_rejected() {
    for val in 0x4..=0xBu8 {
        assert_eq!(
            DeviceRecoveryStatus::try_from(val),
            Err(OcpError::RecoveryStatusInvalidStatus),
            "value {:#x} should be reserved",
            val
        );
    }
}
