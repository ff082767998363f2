// Licensed under the Apache-2.0 license

use ocp::error::OcpError;
use ocp::protocol::recovery_ctrl::{ActivateRecoveryImage, ImageSelection, RecoveryCtrl};

#[test]
fn valid_recovery_ctrl_to_message() {
    let cmd = RecoveryCtrl::new(
        0,
        ImageSelection::MemoryWindow,
        ActivateRecoveryImage::Activate,
    );
    let msg = cmd.to_message();

    assert_eq!(msg[0], 0x00);
    assert_eq!(msg[1], 0x01);
    assert_eq!(msg[2], 0x0F);
}

#[test]
fn select_local_c_image_without_activation() {
    let cmd = RecoveryCtrl::new(
        0,
        ImageSelection::LocalCImage,
        ActivateRecoveryImage::DoNotActivate,
    );
    let msg = cmd.to_message();

    assert_eq!(msg, [0x00, 0x02, 0x00]);
}

#[test]
fn nonzero_cms_index() {
    let cmd = RecoveryCtrl::new(
        5,
        ImageSelection::MemoryWindow,
        ActivateRecoveryImage::DoNotActivate,
    );
    let msg = cmd.to_message();

    assert_eq!(msg[0], 5);
}

#[test]
fn recovery_ctrl_from_message_valid() {
    let cmd = RecoveryCtrl::from_message(&[0x03, 0x01, 0x0F]).unwrap();
    assert_eq!(cmd.cms, 3);
    assert_eq!(cmd.image_selection, ImageSelection::MemoryWindow);
    assert_eq!(cmd.activate, ActivateRecoveryImage::Activate);
}

#[test]
fn recovery_ctrl_from_message_too_short() {
    assert_eq!(
        RecoveryCtrl::from_message(&[]),
        Err(OcpError::MessageTooShort)
    );
    assert_eq!(
        RecoveryCtrl::from_message(&[0x00]),
        Err(OcpError::MessageTooShort)
    );
    assert_eq!(
        RecoveryCtrl::from_message(&[0x00, 0x00]),
        Err(OcpError::MessageTooShort)
    );
}

#[test]
fn recovery_ctrl_from_message_too_long() {
    assert_eq!(
        RecoveryCtrl::from_message(&[0x00, 0x00, 0x00, 0x00]),
        Err(OcpError::MessageTooLong)
    );
}

#[test]
fn from_message_reserved_image_selection() {
    assert_eq!(
        RecoveryCtrl::from_message(&[0x00, 0x03, 0x00]),
        Err(OcpError::RecoveryCtrlInvalidImageSelection)
    );
    assert_eq!(
        RecoveryCtrl::from_message(&[0x00, 0xFF, 0x00]),
        Err(OcpError::RecoveryCtrlInvalidImageSelection)
    );
}

#[test]
fn from_message_reserved_activate() {
    assert_eq!(
        RecoveryCtrl::from_message(&[0x00, 0x00, 0x01]),
        Err(OcpError::RecoveryCtrlInvalidActivate)
    );
    assert_eq!(
        RecoveryCtrl::from_message(&[0x00, 0x00, 0x0E]),
        Err(OcpError::RecoveryCtrlInvalidActivate)
    );
    assert_eq!(
        RecoveryCtrl::from_message(&[0x00, 0x00, 0x10]),
        Err(OcpError::RecoveryCtrlInvalidActivate)
    );
}

#[test]
fn recovery_ctrl_from_message_round_trip() {
    let original = RecoveryCtrl::new(
        255,
        ImageSelection::LocalCImage,
        ActivateRecoveryImage::Activate,
    );
    let msg = original.to_message();
    let parsed = RecoveryCtrl::from_message(&msg).unwrap();
    assert_eq!(original, parsed);
}

#[test]
fn recovery_ctrl_valid_enum_round_trips() {
    assert_eq!(
        ImageSelection::try_from(0x00),
        Ok(ImageSelection::NoOperation)
    );
    assert_eq!(
        ImageSelection::try_from(0x01),
        Ok(ImageSelection::MemoryWindow)
    );
    assert_eq!(
        ImageSelection::try_from(0x02),
        Ok(ImageSelection::LocalCImage)
    );

    assert_eq!(
        ActivateRecoveryImage::try_from(0x00),
        Ok(ActivateRecoveryImage::DoNotActivate)
    );
    assert_eq!(
        ActivateRecoveryImage::try_from(0x0F),
        Ok(ActivateRecoveryImage::Activate)
    );
}
