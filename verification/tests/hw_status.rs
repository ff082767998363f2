// Licensed under the Apache-2.0 license

use ocp::error::OcpError;
use ocp::protocol::hw_status::{
    CompositeTemperature, HwStatus, HwStatusFlags, MAX_MESSAGE_LEN, MAX_VENDOR_SPECIFIC_STATUS_LEN,
    MIN_MESSAGE_LEN,
};

fn hw_flags(temp_critical: bool, soft_error: bool, fatal_error: bool) -> HwStatusFlags {
    let mut f = HwStatusFlags(0);
    f.set_temp_critical(temp_critical);
    f.set_hw_soft_error(soft_error);
    f.set_hw_fatal_error(fatal_error);
    f
}

// --- HwStatusFlags ---

#[test]
fn flags_all_clear() {
    let status = HwStatus::new(HwStatusFlags(0), 0, CompositeTemperature::NoData, &[]).unwrap();
    let (msg, _) = status.to_message();
    assert_eq!(msg[0], 0x00);
}

#[test]
fn flag_temp_critical() {
    let status = HwStatus::new(
        hw_flags(true, false, false),
        0,
        CompositeTemperature::NoData,
        &[],
    )
    .unwrap();
    assert!(status.temp_critical());
    assert!(!status.hw_soft_error());
    assert!(!status.hw_fatal_error());
    assert_eq!(status.to_message().0[0], 0x01);
}

#[test]
fn flag_hw_soft_error() {
    let status = HwStatus::new(
        hw_flags(false, true, false),
        0,
        CompositeTemperature::NoData,
        &[],
    )
    .unwrap();
    assert!(status.hw_soft_error());
    assert_eq!(status.to_message().0[0], 0x02);
}

#[test]
fn flag_hw_fatal_error() {
    let status = HwStatus::new(
        hw_flags(false, false, true),
        0,
        CompositeTemperature::NoData,
        &[],
    )
    .unwrap();
    assert!(status.hw_fatal_error());
    assert_eq!(status.to_message().0[0], 0x04);
}

#[test]
fn flags_all_set() {
    let status = HwStatus::new(
        hw_flags(true, true, true),
        0,
        CompositeTemperature::NoData,
        &[],
    )
    .unwrap();
    assert_eq!(status.to_message().0[0], 0x07);
}

// --- CompositeTemperature ---

#[test]
fn ctemp_zero_celsius() {
    let ct = CompositeTemperature::Celsius(0);
    assert_eq!(ct.to_byte(), 0x00);
}

#[test]
fn ctemp_positive_max() {
    let ct = CompositeTemperature::Celsius(127);
    assert_eq!(ct.to_byte(), 0x7F);
}

#[test]
fn ctemp_negative_min() {
    let ct = CompositeTemperature::Celsius(-60);
    assert_eq!(ct.to_byte(), 0xC4);
}

#[test]
fn ctemp_negative_one() {
    let ct = CompositeTemperature::Celsius(-1);
    assert_eq!(ct.to_byte(), 0xFF);
}

#[test]
fn ctemp_no_data() {
    assert_eq!(CompositeTemperature::NoData.to_byte(), 0x80);
}

#[test]
fn ctemp_sensor_failure() {
    assert_eq!(CompositeTemperature::SensorFailure.to_byte(), 0x81);
}

#[test]
fn ctemp_try_from_positive() {
    assert_eq!(
        CompositeTemperature::try_from(0x00),
        Ok(CompositeTemperature::Celsius(0)),
    );
    assert_eq!(
        CompositeTemperature::try_from(0x7E),
        Ok(CompositeTemperature::Celsius(126)),
    );
    assert_eq!(
        CompositeTemperature::try_from(0x7F),
        Ok(CompositeTemperature::Celsius(127)),
    );
}

#[test]
fn ctemp_try_from_special() {
    assert_eq!(
        CompositeTemperature::try_from(0x80),
        Ok(CompositeTemperature::NoData),
    );
    assert_eq!(
        CompositeTemperature::try_from(0x81),
        Ok(CompositeTemperature::SensorFailure),
    );
}

#[test]
fn ctemp_try_from_negative() {
    assert_eq!(
        CompositeTemperature::try_from(0xC4),
        Ok(CompositeTemperature::Celsius(-60)),
    );
    assert_eq!(
        CompositeTemperature::try_from(0xFF),
        Ok(CompositeTemperature::Celsius(-1)),
    );
}

#[test]
fn ctemp_try_from_reserved_rejected() {
    for raw in [0x82, 0x83, 0x90, 0xA0, 0xC3] {
        assert_eq!(
            CompositeTemperature::try_from(raw),
            Err(OcpError::HwStatusInvalidCompositeTemp),
        );
    }
}

#[test]
fn ctemp_below_minus_60_rejected() {
    assert_eq!(
        HwStatus::new(HwStatusFlags(0), 0, CompositeTemperature::Celsius(-61), &[],),
        Err(OcpError::HwStatusInvalidCompositeTemp),
    );
    assert_eq!(
        HwStatus::new(
            HwStatusFlags(0),
            0,
            CompositeTemperature::Celsius(-128),
            &[],
        ),
        Err(OcpError::HwStatusInvalidCompositeTemp),
    );
}

#[test]
fn ctemp_minus_60_accepted() {
    HwStatus::new(HwStatusFlags(0), 0, CompositeTemperature::Celsius(-60), &[]).unwrap();
}

// --- Vendor-specific status length ---

#[test]
fn vendor_status_empty_accepted() {
    let hs = HwStatus::new(HwStatusFlags(0), 0, CompositeTemperature::NoData, &[]).unwrap();
    assert_eq!(hs.vendor_specific_status().len(), 0);
    assert_eq!(hs.message_len(), MIN_MESSAGE_LEN);
}

#[test]
fn vendor_status_max_accepted() {
    let data = [0xAB; MAX_VENDOR_SPECIFIC_STATUS_LEN];
    let hs = HwStatus::new(HwStatusFlags(0), 0, CompositeTemperature::NoData, &data).unwrap();
    assert_eq!(
        hs.vendor_specific_status().len(),
        MAX_VENDOR_SPECIFIC_STATUS_LEN
    );
    assert_eq!(hs.message_len(), MAX_MESSAGE_LEN);
}

#[test]
fn vendor_status_too_long_rejected() {
    let data = [0x00; MAX_VENDOR_SPECIFIC_STATUS_LEN + 1];
    assert_eq!(
        HwStatus::new(HwStatusFlags(0), 0, CompositeTemperature::NoData, &data,),
        Err(OcpError::HwStatusVendorStatusTooLong),
    );
}

// --- to_message ---

#[test]
fn to_message_no_vendor_status() {
    let hs = HwStatus::new(
        HwStatusFlags(0),
        0x00,
        CompositeTemperature::Celsius(25),
        &[],
    )
    .unwrap();
    let (msg, len) = hs.to_message();

    assert_eq!(len, 4);
    assert_eq!(msg[0], 0x00);
    assert_eq!(msg[1], 0x00);
    assert_eq!(msg[2], 25);
    assert_eq!(msg[3], 0);
}

#[test]
fn to_message_with_vendor_status() {
    let vendor = [0xDE, 0xAD, 0xBE];
    let hs = HwStatus::new(
        hw_flags(true, false, true),
        0xF0,
        CompositeTemperature::Celsius(-10),
        &vendor,
    )
    .unwrap();
    let (msg, len) = hs.to_message();

    assert_eq!(len, 7);
    assert_eq!(msg[0], 0x05); // bits 0 and 2
    assert_eq!(msg[1], 0xF0);
    assert_eq!(msg[2], (-10i8) as u8); // 0xF6
    assert_eq!(msg[3], 3);
    assert_eq!(&msg[4..7], &[0xDE, 0xAD, 0xBE]);
}

#[test]
fn to_message_vendor_hw_status_preserved() {
    let hs = HwStatus::new(HwStatusFlags(0), 0xFF, CompositeTemperature::NoData, &[]).unwrap();
    assert_eq!(hs.vendor_hw_status(), 0xFF);
    assert_eq!(hs.to_message().0[1], 0xFF);
}

#[test]
fn hw_status_to_message_bytes_beyond_len_are_zero() {
    let hs = HwStatus::new(
        HwStatusFlags(0),
        0,
        CompositeTemperature::NoData,
        &[0xFF, 0xFF],
    )
    .unwrap();
    let (msg, len) = hs.to_message();

    assert_eq!(len, 6);
    for &b in &msg[len..] {
        assert_eq!(b, 0x00);
    }
}

#[test]
fn to_message_max_vendor_status() {
    let data = [0x42; MAX_VENDOR_SPECIFIC_STATUS_LEN];
    let hs = HwStatus::new(
        hw_flags(false, true, false),
        0xAA,
        CompositeTemperature::SensorFailure,
        &data,
    )
    .unwrap();
    let (msg, len) = hs.to_message();

    assert_eq!(len, MAX_MESSAGE_LEN);
    assert_eq!(msg[0], 0x02);
    assert_eq!(msg[1], 0xAA);
    assert_eq!(msg[2], 0x81);
    assert_eq!(msg[3], MAX_VENDOR_SPECIFIC_STATUS_LEN as u8);
    assert_eq!(&msg[4..MAX_MESSAGE_LEN], &data[..]);
}
