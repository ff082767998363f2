//! DEVICE_ID (cmd=0x23) response structure.
//!
//! A variable-length RO command (24-255 bytes) reporting device identity
//! information via a typed descriptor and optional vendor-specific string.
//! This command is required (scope A -- available anytime).

use core::convert::TryFrom;
use vstd::prelude::*;

use crate::bits::{copy_at, le_bytes_u16, le_bytes_u32, spliced, u16_to_le, u32_to_le};
use crate::error::OcpError;

verus! {

/// Size of the descriptor data region in bytes (bytes 2-23).
pub const DESCRIPTOR_DATA_LEN: usize = 22;

/// Minimum wire size of a DEVICE_ID message (no vendor string).
pub const MIN_MESSAGE_LEN: usize = 24;

/// Maximum wire size of a DEVICE_ID message (full vendor string).
pub const MAX_MESSAGE_LEN: usize = 255;

/// Maximum length of the vendor-specific string in bytes.
pub const MAX_VENDOR_STRING_LEN: usize = 231;

/// `n` zero bytes.
pub open spec fn zeros(n: nat) -> Seq<u8> {
    Seq::new(n, |i: int| 0u8)
}

/// Byte 0: Initial Descriptor Type (per DMTF PLDM FM Table 8).
#[derive(Debug, Clone, Copy, PartialEq, Eq, Structural)]
pub enum DescriptorType {
    /// 0x00
    PciVendor,
    /// 0x01
    Iana,
    /// 0x02
    Uuid,
    /// 0x03
    PnpVendor,
    /// 0x04
    AcpiVendor,
    /// 0x05
    IanaEnterprise,
    /// 0xFF
    NvmeMi,
}

impl DescriptorType {
    /// The code of each variant on the wire.
    pub open spec fn spec_code(self) -> u8 {
        match self {
            DescriptorType::PciVendor => 0x00,
            DescriptorType::Iana => 0x01,
            DescriptorType::Uuid => 0x02,
            DescriptorType::PnpVendor => 0x03,
            DescriptorType::AcpiVendor => 0x04,
            DescriptorType::IanaEnterprise => 0x05,
            DescriptorType::NvmeMi => 0xFF,
        }
    }

    /// Decoding of a code, with an error for the reserved codes.
    pub open spec fn spec_from_code(value: u8) -> Result<Self, OcpError> {
        if value == 0x00 {
            Ok(DescriptorType::PciVendor)
        } else if value == 0x01 {
            Ok(DescriptorType::Iana)
        } else if value == 0x02 {
            Ok(DescriptorType::Uuid)
        } else if value == 0x03 {
            Ok(DescriptorType::PnpVendor)
        } else if value == 0x04 {
            Ok(DescriptorType::AcpiVendor)
        } else if value == 0x05 {
            Ok(DescriptorType::IanaEnterprise)
        } else if value == 0xFF {
            Ok(DescriptorType::NvmeMi)
        } else {
            Err(OcpError::DeviceIdInvalidDescriptorType)
        }
    }

    /// The code on the wire.
    pub fn to_byte(self) -> (r: u8)
        ensures
            r == self.spec_code(),
    {
        match self {
            DescriptorType::PciVendor => 0x00,
            DescriptorType::Iana => 0x01,
            DescriptorType::Uuid => 0x02,
            DescriptorType::PnpVendor => 0x03,
            DescriptorType::AcpiVendor => 0x04,
            DescriptorType::IanaEnterprise => 0x05,
            DescriptorType::NvmeMi => 0xFF,
        }
    }
}

impl vstd::std_specs::convert::TryFromSpecImpl<u8> for DescriptorType {
    open spec fn obeys_try_from_spec() -> bool {
        true
    }

    open spec fn try_from_spec(v: u8) -> Result<Self, OcpError> {
        Self::spec_from_code(v)
    }
}

impl TryFrom<u8> for DescriptorType {
    type Error = OcpError;

    fn try_from(value: u8) -> (r: Result<Self, OcpError>)
        ensures
            r == Self::spec_from_code(value),
    {
        match value {
            0x00 => Ok(Self::PciVendor),
            0x01 => Ok(Self::Iana),
            0x02 => Ok(Self::Uuid),
            0x03 => Ok(Self::PnpVendor),
            0x04 => Ok(Self::AcpiVendor),
            0x05 => Ok(Self::IanaEnterprise),
            0xFF => Ok(Self::NvmeMi),
            _ => Err(OcpError::DeviceIdInvalidDescriptorType),
        }
    }
}

/// Every descriptor type decodes from its own code, and a code decodes only
/// to the type that has it.
pub proof fn lemma_descriptor_type_round_trip(t: DescriptorType, v: u8)
    ensures
        DescriptorType::spec_from_code(t.spec_code()) == Ok::<DescriptorType, OcpError>(t),
        DescriptorType::spec_from_code(v) matches Ok(u) ==> u.spec_code() == v,
{
}

/// PCI Vendor descriptor (type 0x00).
///
/// | Offset | Field                  |
/// |--------|------------------------|
/// | 0-1    | PCI Vendor ID (LE)     |
/// | 2-3    | PCI Device ID (LE)     |
/// | 4-5    | Subsystem Vendor ID (LE)|
/// | 6-7    | Subsystem ID (LE)      |
/// | 8      | Revision ID            |
/// | 9-21   | PAD (zeros)            |
#[derive(Debug, Clone, Copy, PartialEq, Eq, Structural)]
pub struct PciVendorDescriptor {
    pub vendor_id: u16,
    pub device_id: u16,
    pub subsystem_vendor_id: u16,
    pub subsystem_id: u16,
    pub revision_id: u8,
}

impl PciVendorDescriptor {
    /// The 22 descriptor bytes.
    pub open spec fn spec_bytes(self) -> Seq<u8> {
        le_bytes_u16(self.vendor_id) + le_bytes_u16(self.device_id) + le_bytes_u16(
            self.subsystem_vendor_id,
        ) + le_bytes_u16(self.subsystem_id) + seq![self.revision_id] + zeros(13)
    }

    pub fn to_descriptor_bytes(&self) -> (r: [u8; DESCRIPTOR_DATA_LEN])
        ensures
            r@ == self.spec_bytes(),
    {
        let mut buf = [0u8; DESCRIPTOR_DATA_LEN];
        let vid = u16_to_le(self.vendor_id);
        let did = u16_to_le(self.device_id);
        let svid = u16_to_le(self.subsystem_vendor_id);
        let sid = u16_to_le(self.subsystem_id);
        buf[0] = vid[0];
        buf[1] = vid[1];
        buf[2] = did[0];
        buf[3] = did[1];
        buf[4] = svid[0];
        buf[5] = svid[1];
        buf[6] = sid[0];
        buf[7] = sid[1];
        buf[8] = self.revision_id;
        assert(buf@ =~= self.spec_bytes());
        buf
    }
}

/// IANA descriptor (type 0x01) and IANA Enterprise descriptor (type 0x05).
///
/// Both types share the same field layout.
///
/// | Offset | Field                       |
/// |--------|-----------------------------|
/// | 0-3    | IANA Enterprise ID (LE)     |
/// | 4-15   | ACPI Product Identifier     |
/// | 16-21  | PAD (zeros)                 |
#[derive(Debug, Clone, Copy, PartialEq, Eq)]
pub struct IanaDescriptor {
    pub enterprise_id: u32,
    pub product_identifier: [u8; 12],
}

impl IanaDescriptor {
    /// The 22 descriptor bytes.
    pub open spec fn spec_bytes(self) -> Seq<u8> {
        le_bytes_u32(self.enterprise_id) + self.product_identifier@ + zeros(6)
    }

    pub fn to_descriptor_bytes(&self) -> (r: [u8; DESCRIPTOR_DATA_LEN])
        ensures
            r@ == self.spec_bytes(),
    {
        let mut buf = [0u8; DESCRIPTOR_DATA_LEN];
        let eid = u32_to_le(self.enterprise_id);
        buf[0] = eid[0];
        buf[1] = eid[1];
        buf[2] = eid[2];
        buf[3] = eid[3];
        copy_at(&mut buf, 4, self.product_identifier.as_slice());
        assert(buf@ =~= self.spec_bytes());
        buf
    }
}

/// UUID descriptor (type 0x02).
///
/// | Offset | Field       |
/// |--------|-------------|
/// | 0-15   | UUID        |
/// | 16-21  | PAD (zeros) |
#[derive(Debug, Clone, Copy, PartialEq, Eq)]
pub struct UuidDescriptor {
    pub uuid: [u8; 16],
}

impl UuidDescriptor {
    /// The 22 descriptor bytes.
    pub open spec fn spec_bytes(self) -> Seq<u8> {
        self.uuid@ + zeros(6)
    }

    pub fn to_descriptor_bytes(&self) -> (r: [u8; DESCRIPTOR_DATA_LEN])
        ensures
            r@ == self.spec_bytes(),
    {
        let mut buf = [0u8; DESCRIPTOR_DATA_LEN];
        copy_at(&mut buf, 0, self.uuid.as_slice());
        assert(buf@ =~= self.spec_bytes());
        buf
    }
}

/// PnP Vendor descriptor (type 0x03).
///
/// | Offset | Field                  |
/// |--------|------------------------|
/// | 0-2    | PnP Vendor Identifier  |
/// | 3-6    | PnP Product Identifier |
/// | 7-21   | PAD (zeros)            |
#[derive(Debug, Clone, Copy, PartialEq, Eq)]
pub struct PnpVendorDescriptor {
    pub vendor_identifier: [u8; 3],
    pub product_identifier: [u8; 4],
}

impl PnpVendorDescriptor {
    /// The 22 descriptor bytes.
    pub open spec fn spec_bytes(self) -> Seq<u8> {
        self.vendor_identifier@ + self.product_identifier@ + zeros(15)
    }

    pub fn to_descriptor_bytes(&self) -> (r: [u8; DESCRIPTOR_DATA_LEN])
        ensures
            r@ == self.spec_bytes(),
    {
        let mut buf = [0u8; DESCRIPTOR_DATA_LEN];
        copy_at(&mut buf, 0, self.vendor_identifier.as_slice());
        copy_at(&mut buf, 3, self.product_identifier.as_slice());
        assert(buf@ =~= self.spec_bytes());
        buf
    }
}

/// ACPI Vendor descriptor (type 0x04).
///
/// | Offset | Field                     |
/// |--------|---------------------------|
/// | 0-3    | ACPI Vendor Identifier    |
/// | 4-6    | Vendor Product Identifier |
/// | 7-21   | PAD (zeros)               |
#[derive(Debug, Clone, Copy, PartialEq, Eq)]
pub struct AcpiVendorDescriptor {
    pub vendor_identifier: [u8; 4],
    pub product_identifier: [u8; 3],
}

impl AcpiVendorDescriptor {
    /// The 22 descriptor bytes.
    pub open spec fn spec_bytes(self) -> Seq<u8> {
        self.vendor_identifier@ + self.product_identifier@ + zeros(15)
    }

    pub fn to_descriptor_bytes(&self) -> (r: [u8; DESCRIPTOR_DATA_LEN])
        ensures
            r@ == self.spec_bytes(),
    {
        let mut buf = [0u8; DESCRIPTOR_DATA_LEN];
        copy_at(&mut buf, 0, self.vendor_identifier.as_slice());
        copy_at(&mut buf, 4, self.product_identifier.as_slice());
        assert(buf@ =~= self.spec_bytes());
        buf
    }
}

/// NVMe-MI descriptor (type 0xFF).
///
/// | Offset | Field                |
/// |--------|----------------------|
/// | 0-1    | Vendor ID (LE)       |
/// | 2-21   | Device Serial Number |
#[derive(Debug, Clone, Copy, PartialEq, Eq)]
pub struct NvmeMiDescriptor {
    pub vendor_id: u16,
    pub serial_number: [u8; 20],
}

impl NvmeMiDescriptor {
    /// The 22 descriptor bytes.
    pub open spec fn spec_bytes(self) -> Seq<u8> {
        le_bytes_u16(self.vendor_id) + self.serial_number@
    }

    pub fn to_descriptor_bytes(&self) -> (r: [u8; DESCRIPTOR_DATA_LEN])
        ensures
            r@ == self.spec_bytes(),
    {
        let mut buf = [0u8; DESCRIPTOR_DATA_LEN];
        let vid = u16_to_le(self.vendor_id);
        buf[0] = vid[0];
        buf[1] = vid[1];
        copy_at(&mut buf, 2, self.serial_number.as_slice());
        assert(buf@ =~= self.spec_bytes());
        buf
    }
}

/// Descriptor data for bytes 2-23, typed by descriptor type.
#[derive(Debug, Clone, Copy, PartialEq, Eq)]
pub enum DeviceDescriptor {
    PciVendor(PciVendorDescriptor),
    Iana(IanaDescriptor),
    Uuid(UuidDescriptor),
    PnpVendor(PnpVendorDescriptor),
    AcpiVendor(AcpiVendorDescriptor),
    IanaEnterprise(IanaDescriptor),
    NvmeMi(NvmeMiDescriptor),
}

impl DeviceDescriptor {
    /// The descriptor type of each variant.
    pub open spec fn spec_type(self) -> DescriptorType {
        match self {
            DeviceDescriptor::PciVendor(_) => DescriptorType::PciVendor,
            DeviceDescriptor::Iana(_) => DescriptorType::Iana,
            DeviceDescriptor::Uuid(_) => DescriptorType::Uuid,
            DeviceDescriptor::PnpVendor(_) => DescriptorType::PnpVendor,
            DeviceDescriptor::AcpiVendor(_) => DescriptorType::AcpiVendor,
            DeviceDescriptor::IanaEnterprise(_) => DescriptorType::IanaEnterprise,
            DeviceDescriptor::NvmeMi(_) => DescriptorType::NvmeMi,
        }
    }

    /// The 22 descriptor bytes of each variant.
    pub open spec fn spec_bytes(self) -> Seq<u8> {
        match self {
            DeviceDescriptor::PciVendor(d) => d.spec_bytes(),
            DeviceDescriptor::Iana(d) => d.spec_bytes(),
            DeviceDescriptor::Uuid(d) => d.spec_bytes(),
            DeviceDescriptor::PnpVendor(d) => d.spec_bytes(),
            DeviceDescriptor::AcpiVendor(d) => d.spec_bytes(),
            DeviceDescriptor::IanaEnterprise(d) => d.spec_bytes(),
            DeviceDescriptor::NvmeMi(d) => d.spec_bytes(),
        }
    }

    /// Returns the descriptor type byte (byte 0) for the wire format.
    pub fn descriptor_type_byte(&self) -> (r: u8)
        ensures
            r == self.spec_type().spec_code(),
    {
        match self {
            Self::PciVendor(_) => DescriptorType::PciVendor.to_byte(),
            Self::Iana(_) => DescriptorType::Iana.to_byte(),
            Self::Uuid(_) => DescriptorType::Uuid.to_byte(),
            Self::PnpVendor(_) => DescriptorType::PnpVendor.to_byte(),
            Self::AcpiVendor(_) => DescriptorType::AcpiVendor.to_byte(),
            Self::IanaEnterprise(_) => DescriptorType::IanaEnterprise.to_byte(),
            Self::NvmeMi(_) => DescriptorType::NvmeMi.to_byte(),
        }
    }

    /// Returns the descriptor type enum value.
    pub fn descriptor_type(&self) -> (r: DescriptorType)
        ensures
            r == self.spec_type(),
    {
        match self {
            Self::PciVendor(_) => DescriptorType::PciVendor,
            Self::Iana(_) => DescriptorType::Iana,
            Self::Uuid(_) => DescriptorType::Uuid,
            Self::PnpVendor(_) => DescriptorType::PnpVendor,
            Self::AcpiVendor(_) => DescriptorType::AcpiVendor,
            Self::IanaEnterprise(_) => DescriptorType::IanaEnterprise,
            Self::NvmeMi(_) => DescriptorType::NvmeMi,
        }
    }

    /// Serialize the descriptor data into the 22-byte region (bytes 2-23).
    pub fn to_descriptor_bytes(&self) -> (r: [u8; DESCRIPTOR_DATA_LEN])
        ensures
            r@ == self.spec_bytes(),
    {
        match self {
            Self::PciVendor(d) => d.to_descriptor_bytes(),
            Self::Iana(d) => d.to_descriptor_bytes(),
            Self::IanaEnterprise(d) => d.to_descriptor_bytes(),
            Self::Uuid(d) => d.to_descriptor_bytes(),
            Self::PnpVendor(d) => d.to_descriptor_bytes(),
            Self::AcpiVendor(d) => d.to_descriptor_bytes(),
            Self::NvmeMi(d) => d.to_descriptor_bytes(),
        }
    }
}

/// DEVICE_ID response (24-255 bytes on the wire).
///
/// | Byte  | Field                    |
/// |-------|--------------------------|
/// | 0     | Descriptor Type          |
/// | 1     | Vendor String Length      |
/// | 2-23  | Descriptor Data (22B)    |
/// | 24-254| Vendor Specific String   |
#[derive(Debug, Clone, Copy, PartialEq, Eq)]
pub struct DeviceId<'a> {
    descriptor: DeviceDescriptor,
    vendor_string: &'a [u8],
}

impl<'a> DeviceId<'a> {
    /// The vendor string of every value is at most 231 bytes.
    #[verifier::type_invariant]
    spec fn inv(self) -> bool {
        self.vendor_string@.len() <= MAX_VENDOR_STRING_LEN
    }

    /// The descriptor held.
    pub closed spec fn spec_descriptor(self) -> DeviceDescriptor {
        self.descriptor
    }

    /// The vendor string held.
    pub closed spec fn spec_vendor_string(self) -> Seq<u8> {
        self.vendor_string@
    }

    /// The logical bytes of the message: type, string length, descriptor
    /// data and the vendor string.
    pub open spec fn spec_message(self) -> Seq<u8> {
        seq![
            self.spec_descriptor().spec_type().spec_code(),
            self.spec_vendor_string().len() as u8,
        ] + self.spec_descriptor().spec_bytes() + self.spec_vendor_string()
    }

    /// Create a new DEVICE_ID response.
    ///
    /// Returns an error exactly when `vendor_string` exceeds 231 bytes.
    pub fn new(descriptor: DeviceDescriptor, vendor_string: &'a [u8]) -> (r: Result<
        Self,
        OcpError,
    >)
        ensures
            vendor_string@.len() > MAX_VENDOR_STRING_LEN ==> r == Err::<Self, OcpError>(
                OcpError::DeviceIdVendorStringTooLong,
            ),
            vendor_string@.len() <= MAX_VENDOR_STRING_LEN ==> (r matches Ok(d)
                && d.spec_descriptor() == descriptor && d.spec_vendor_string()
                == vendor_string@),
    {
        if vendor_string.len() > MAX_VENDOR_STRING_LEN {
            return Err(OcpError::DeviceIdVendorStringTooLong);
        }
        Ok(Self { descriptor, vendor_string })
    }

    /// The device descriptor (typed).
    pub fn descriptor(&self) -> (r: &DeviceDescriptor)
        ensures
            *r == self.spec_descriptor(),
    {
        &self.descriptor
    }

    /// The vendor-specific string (may be empty).
    pub fn vendor_string(&self) -> (r: &[u8])
        ensures
            r@ == self.spec_vendor_string(),
    {
        self.vendor_string
    }

    /// Logical length of the serialized message.
    pub fn message_len(&self) -> (r: usize)
        ensures
            r == MIN_MESSAGE_LEN + self.spec_vendor_string().len(),
            r <= MAX_MESSAGE_LEN,
    {
        proof {
            use_type_invariant(self);
        }
        MIN_MESSAGE_LEN + self.vendor_string.len()
    }

    /// Serialize into the wire representation.
    ///
    /// Returns `(buffer, logical_length)` where `buffer` is a full-size
    /// array and `logical_length` indicates how many bytes are valid
    /// (24 + vendor string length). Bytes beyond `logical_length` are zero.
    pub fn to_message(&self) -> (r: ([u8; MAX_MESSAGE_LEN], usize))
        ensures
            r.1 == self.spec_message().len(),
            r.0@ == self.spec_message() + zeros((MAX_MESSAGE_LEN - self.spec_message().len()) as nat),
    {
        proof {
            use_type_invariant(self);
        }
        let mut buf = [0u8; MAX_MESSAGE_LEN];
        let desc_bytes = self.descriptor.to_descriptor_bytes();

        buf[0] = self.descriptor.descriptor_type_byte();
        buf[1] = self.vendor_string.len() as u8;
        copy_at(&mut buf, 2, desc_bytes.as_slice());

        let len = self.message_len();
        copy_at(&mut buf, MIN_MESSAGE_LEN, self.vendor_string);
        assert(buf@ =~= self.spec_message() + zeros((MAX_MESSAGE_LEN - self.spec_message().len()) as nat));
        (buf, len)
    }
}

} // verus!
