// Licensed under the Apache-2.0 license

use ocp::error::OcpError;
use ocp::protocol::prot_cap::{ProtCap, RecoveryProtocolCapabilities, MAGIC};

/// Returns a capabilities value with all mandatory bits set.
fn mandatory_caps() -> RecoveryProtocolCapabilities {
    let mut caps = RecoveryProtocolCapabilities(0);
    caps.set_identification(true);
    caps.set_device_status(true);
    caps.set_push_c_image_support(true);
    caps.set_recovery_memory_access(true);
    caps
}

#[test]
fn valid_prot_cap_to_message() {
    let caps = mandatory_caps();
    let prot_cap = ProtCap::new(0x01, 0x01, caps, 1, 17, 10);
    let msg = prot_cap
        .to_message()
        .expect("valid capabilities should succeed");

    assert_eq!(&msg[0..8], &MAGIC);
    assert_eq!(msg[8], 0x01);
    assert_eq!(msg[9], 0x01);
    assert_eq!(msg[10..12], caps.0.to_le_bytes());
    assert_eq!(msg[12], 1);
    assert_eq!(msg[13], 17);
    assert_eq!(msg[14], 10);
}

#[test]
fn missing_identification_rejected() {
    let mut caps = mandatory_caps();
    caps.set_identification(false);

    let prot_cap = ProtCap::new(0x01, 0x01, caps, 1, 17, 0);
    assert_eq!(
        prot_cap.to_message(),
        Err(OcpError::ProtCapIdentificationRequired)
    );
}

#[test]
fn missing_device_status_rejected() {
    let mut caps = mandatory_caps();
    caps.set_device_status(false);

    let prot_cap = ProtCap::new(0x01, 0x01, caps, 1, 17, 0);
    assert_eq!(
        prot_cap.to_message(),
        Err(OcpError::ProtCapDeviceStatusRequired)
    );
}

#[test]
fn missing_c_image_support_rejected() {
    let mut caps = mandatory_caps();
    caps.set_push_c_image_support(false);
    caps.set_local_c_image_support(false);

    let prot_cap = ProtCap::new(0x01, 0x01, caps, 1, 17, 0);
    assert_eq!(
        prot_cap.to_message(),
        Err(OcpError::ProtCapCImageSupportRequired)
    );
}

#[test]
fn push_c_image_without_recovery_memory_access_rejected() {
    let mut caps = mandatory_caps();
    caps.set_recovery_memory_access(false);

    let prot_cap = ProtCap::new(0x01, 0x01, caps, 1, 17, 0);
    assert_eq!(
        prot_cap.to_message(),
        Err(OcpError::ProtCapRecoveryMemoryAccessRequired)
    );
}

#[test]
fn push_c_image_with_fifo_cms_accepted() {
    let mut caps = mandatory_caps();
    caps.set_recovery_memory_access(false);
    caps.set_fifo_cms_support(true);

    let prot_cap = ProtCap::new(0x01, 0x01, caps, 1, 17, 0);
    assert!(prot_cap.to_message().is_ok());
}

#[test]
fn local_c_image_without_recovery_memory_access_accepted() {
    let mut caps = mandatory_caps();
    caps.set_push_c_image_support(false);
    caps.set_local_c_image_support(true);
    caps.set_recovery_memory_access(false);

    let prot_cap = ProtCap::new(0x01, 0x01, caps, 1, 17, 0);
    assert!(prot_cap.to_message().is_ok());
}
