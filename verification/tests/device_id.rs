// Licensed under the Apache-2.0 license

use ocp::error::OcpError;
use ocp::protocol::device_id::{
    AcpiVendorDescriptor, DescriptorType, DeviceDescriptor, DeviceId, IanaDescriptor,
    NvmeMiDescriptor, PciVendorDescriptor, PnpVendorDescriptor, UuidDescriptor,
    MAX_MESSAGE_LEN, MAX_VENDOR_STRING_LEN, MIN_MESSAGE_LEN,
};

// --- DescriptorType TryFrom ---

#[test]
fn descriptor_type_all_valid() {
    let cases = [
        (0x00, DescriptorType::PciVendor),
        (0x01, DescriptorType::Iana),
        (0x02, DescriptorType::Uuid),
        (0x03, DescriptorType::PnpVendor),
        (0x04, DescriptorType::AcpiVendor),
        (0x05, DescriptorType::IanaEnterprise),
        (0xFF, DescriptorType::NvmeMi),
    ];
    for (raw, expected) in cases {
        assert_eq!(DescriptorType::try_from(raw), Ok(expected));
    }
}

#[test]
fn descriptor_type_reserved_rejected() {
    for raw in [0x06, 0x07, 0x10, 0x80, 0xFE] {
        assert_eq!(
            DescriptorType::try_from(raw),
            Err(OcpError::DeviceIdInvalidDescriptorType),
        );
    }
}

// --- PciVendorDescriptor ---

#[test]
fn pci_vendor_serializes() {
    let d = PciVendorDescriptor {
        vendor_id: 0x8086,
        device_id: 0x1234,
        subsystem_vendor_id: 0xABCD,
        subsystem_id: 0x5678,
        revision_id: 0x01,
    };
    let bytes = d.to_descriptor_bytes();

    assert_eq!(u16::from_le_bytes([bytes[0], bytes[1]]), 0x8086);
    assert_eq!(u16::from_le_bytes([bytes[2], bytes[3]]), 0x1234);
    assert_eq!(u16::from_le_bytes([bytes[4], bytes[5]]), 0xABCD);
    assert_eq!(u16::from_le_bytes([bytes[6], bytes[7]]), 0x5678);
    assert_eq!(bytes[8], 0x01);
    assert_eq!(&bytes[9..], &[0u8; 13]);
}

// --- IanaDescriptor ---

#[test]
fn iana_serializes() {
    let d = IanaDescriptor {
        enterprise_id: 0x0000_1234,
        product_identifier: *b"HELLO_WORLD!",
    };
    let bytes = d.to_descriptor_bytes();

    assert_eq!(
        u32::from_le_bytes([bytes[0], bytes[1], bytes[2], bytes[3]]),
        0x1234,
    );
    assert_eq!(&bytes[4..16], b"HELLO_WORLD!");
    assert_eq!(&bytes[16..], &[0u8; 6]);
}

// --- UuidDescriptor ---

#[test]
fn uuid_serializes() {
    let uuid = [
        0x01, 0x02, 0x03, 0x04, 0x05, 0x06, 0x07, 0x08, 0x09, 0x0A, 0x0B, 0x0C, 0x0D, 0x0E,
        0x0F, 0x10,
    ];
    let d = UuidDescriptor { uuid };
    let bytes = d.to_descriptor_bytes();

    assert_eq!(&bytes[0..16], &uuid);
    assert_eq!(&bytes[16..], &[0u8; 6]);
}

// --- PnpVendorDescriptor ---

#[test]
fn pnp_vendor_serializes() {
    let d = PnpVendorDescriptor {
        vendor_identifier: [0xAA, 0xBB, 0xCC],
        product_identifier: [0x01, 0x02, 0x03, 0x04],
    };
    let bytes = d.to_descriptor_bytes();

    assert_eq!(&bytes[0..3], &[0xAA, 0xBB, 0xCC]);
    assert_eq!(&bytes[3..7], &[0x01, 0x02, 0x03, 0x04]);
    assert_eq!(&bytes[7..], &[0u8; 15]);
}

// --- AcpiVendorDescriptor ---

#[test]
fn acpi_vendor_serializes() {
    let d = AcpiVendorDescriptor {
        vendor_identifier: [0x41, 0x42, 0x43, 0x44],
        product_identifier: [0x01, 0x02, 0x03],
    };
    let bytes = d.to_descriptor_bytes();

    assert_eq!(&bytes[0..4], &[0x41, 0x42, 0x43, 0x44]);
    assert_eq!(&bytes[4..7], &[0x01, 0x02, 0x03]);
    assert_eq!(&bytes[7..], &[0u8; 15]);
}

// --- NvmeMiDescriptor ---

#[test]
fn nvme_mi_serializes() {
    let mut sn = [0u8; 20];
    sn[0] = 0xDE;
    sn[19] = 0xAD;
    let d = NvmeMiDescriptor {
        vendor_id: 0x1D1D,
        serial_number: sn,
    };
    let bytes = d.to_descriptor_bytes();

    assert_eq!(u16::from_le_bytes([bytes[0], bytes[1]]), 0x1D1D);
    assert_eq!(bytes[2], 0xDE);
    assert_eq!(bytes[21], 0xAD);
    assert_eq!(&bytes[2..22], &sn);
}

// --- DeviceDescriptor type bytes ---

#[test]
fn descriptor_type_bytes() {
    let pci = DeviceDescriptor::PciVendor(PciVendorDescriptor {
        vendor_id: 0,
        device_id: 0,
        subsystem_vendor_id: 0,
        subsystem_id: 0,
        revision_id: 0,
    });
    assert_eq!(pci.descriptor_type_byte(), 0x00);
    assert_eq!(pci.descriptor_type(), DescriptorType::PciVendor);

    let iana = DeviceDescriptor::Iana(IanaDescriptor {
        enterprise_id: 0,
        product_identifier: [0; 12],
    });
    assert_eq!(iana.descriptor_type_byte(), 0x01);

    let iana_ent = DeviceDescriptor::IanaEnterprise(IanaDescriptor {
        enterprise_id: 0,
        product_identifier: [0; 12],
    });
    assert_eq!(iana_ent.descriptor_type_byte(), 0x05);

    let uuid = DeviceDescriptor::Uuid(UuidDescriptor { uuid: [0; 16] });
    assert_eq!(uuid.descriptor_type_byte(), 0x02);

    let pnp = DeviceDescriptor::PnpVendor(PnpVendorDescriptor {
        vendor_identifier: [0; 3],
        product_identifier: [0; 4],
    });
    assert_eq!(pnp.descriptor_type_byte(), 0x03);

    let acpi = DeviceDescriptor::AcpiVendor(AcpiVendorDescriptor {
        vendor_identifier: [0; 4],
        product_identifier: [0; 3],
    });
    assert_eq!(acpi.descriptor_type_byte(), 0x04);

    let nvme = DeviceDescriptor::NvmeMi(NvmeMiDescriptor {
        vendor_id: 0,
        serial_number: [0; 20],
    });
    assert_eq!(nvme.descriptor_type_byte(), 0xFF);
}

// --- IANA and IanaEnterprise share serialization ---

#[test]
fn iana_and_iana_enterprise_same_serialization() {
    let d = IanaDescriptor {
        enterprise_id: 0xDEAD_BEEF,
        product_identifier: *b"PRODUCT_ID__",
    };
    let as_iana = DeviceDescriptor::Iana(d);
    let as_enterprise = DeviceDescriptor::IanaEnterprise(d);

    assert_eq!(
        as_iana.to_descriptor_bytes(),
        as_enterprise.to_descriptor_bytes(),
    );
    assert_eq!(as_iana.descriptor_type_byte(), 0x01);
    assert_eq!(as_enterprise.descriptor_type_byte(), 0x05);
}

// --- DeviceId vendor string validation ---

#[test]
fn vendor_string_empty_accepted() {
    let desc = DeviceDescriptor::Uuid(UuidDescriptor { uuid: [0; 16] });
    let did = DeviceId::new(desc, &[]).unwrap();
    assert_eq!(did.vendor_string().len(), 0);
    assert_eq!(did.message_len(), MIN_MESSAGE_LEN);
}

#[test]
fn vendor_string_max_accepted() {
    let data = [0x41; MAX_VENDOR_STRING_LEN];
    let desc = DeviceDescriptor::Uuid(UuidDescriptor { uuid: [0; 16] });
    let did = DeviceId::new(desc, &data).unwrap();
    assert_eq!(did.vendor_string().len(), MAX_VENDOR_STRING_LEN);
    assert_eq!(did.message_len(), MAX_MESSAGE_LEN);
}

#[test]
fn vendor_string_too_long_rejected() {
    let data = [0x00; MAX_VENDOR_STRING_LEN + 1];
    let desc = DeviceDescriptor::Uuid(UuidDescriptor { uuid: [0; 16] });
    assert_eq!(
        DeviceId::new(desc, &data),
        Err(OcpError::DeviceIdVendorStringTooLong),
    );
}

// --- to_message ---

#[test]
fn to_message_no_vendor_string() {
    let desc = DeviceDescriptor::PciVendor(PciVendorDescriptor {
        vendor_id: 0x8086,
        device_id: 0x1234,
        subsystem_vendor_id: 0,
        subsystem_id: 0,
        revision_id: 0x0A,
    });
    let did = DeviceId::new(desc, &[]).unwrap();
    let (msg, len) = did.to_message();

    assert_eq!(len, 24);
    assert_eq!(msg[0], 0x00); // PciVendor type
    assert_eq!(msg[1], 0x00); // vendor string length
    assert_eq!(u16::from_le_bytes([msg[2], msg[3]]), 0x8086);
    assert_eq!(u16::from_le_bytes([msg[4], msg[5]]), 0x1234);
    assert_eq!(msg[10], 0x0A); // revision_id at descriptor offset 8 → msg byte 10
}

#[test]
fn to_message_with_vendor_string() {
    let desc = DeviceDescriptor::NvmeMi(NvmeMiDescriptor {
        vendor_id: 0xBEEF,
        serial_number: [0x42; 20],
    });
    let vendor_str = b"TestDevice-v1.0";
    let did = DeviceId::new(desc, vendor_str).unwrap();
    let (msg, len) = did.to_message();

    assert_eq!(len, 24 + vendor_str.len());
    assert_eq!(msg[0], 0xFF); // NvmeMi type
    assert_eq!(msg[1], vendor_str.len() as u8);
    assert_eq!(u16::from_le_bytes([msg[2], msg[3]]), 0xBEEF);
    assert_eq!(&msg[4..24], &[0x42; 20]);
    assert_eq!(&msg[24..len], vendor_str);
}

#[test]
fn to_message_descriptor_data_padded() {
    let desc = DeviceDescriptor::PnpVendor(PnpVendorDescriptor {
        vendor_identifier: [0xAA, 0xBB, 0xCC],
        product_identifier: [0x01, 0x02, 0x03, 0x04],
    });
    let did = DeviceId::new(desc, &[]).unwrap();
    let (msg, _) = did.to_message();

    assert_eq!(msg[0], 0x03); // PnpVendor type
    assert_eq!(&msg[2..5], &[0xAA, 0xBB, 0xCC]);
    assert_eq!(&msg[5..9], &[0x01, 0x02, 0x03, 0x04]);
    assert_eq!(&msg[9..24], &[0u8; 15]); // padding
}

#[test]
fn device_id_to_message_bytes_beyond_len_are_zero() {
    let desc = DeviceDescriptor::Uuid(UuidDescriptor { uuid: [0xFF; 16] });
    let did = DeviceId::new(desc, b"hi").unwrap();
    let (msg, len) = did.to_message();

    assert_eq!(len, 26);
    for &b in &msg[len..] {
        assert_eq!(b, 0x00);
    }
}

#[test]
fn to_message_max_vendor_string() {
    let data = [0x58; MAX_VENDOR_STRING_LEN];
    let desc = DeviceDescriptor::AcpiVendor(AcpiVendorDescriptor {
        vendor_identifier: *b"ACPI",
        product_identifier: [0x01, 0x02, 0x03],
    });
    let did = DeviceId::new(desc, &data).unwrap();
    let (msg, len) = did.to_message();

    assert_eq!(len, MAX_MESSAGE_LEN);
    assert_eq!(msg[0], 0x04);
    assert_eq!(msg[1], MAX_VENDOR_STRING_LEN as u8);
    assert_eq!(&msg[24..MAX_MESSAGE_LEN], &data[..]);
}
