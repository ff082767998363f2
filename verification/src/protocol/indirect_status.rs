//! INDIRECT_STATUS (cmd=0x2A) response structure.
//!
//! An 8-byte RO command reporting the status flags, region type, polling
//! requirement and size of the memory-window CMS selected via INDIRECT_CTRL.
//! This command is optional (scope R -- recovery interface must be active).

use core::convert::TryFrom;
use vstd::prelude::*;

use crate::bits::{bit_of_u8, get_bit_u8, le_bytes_u32, put_bit_u8, u32_to_le, with_bit_u8};
use crate::error::OcpError;

verus! {

/// Wire size of an INDIRECT_STATUS message in bytes.
pub const MESSAGE_LEN: usize = 8;

/// Byte 0 of INDIRECT_STATUS — status flags, cleared when read.
#[derive(Debug, Clone, Copy, PartialEq, Eq, Structural)]
pub struct StatusFlags(pub u8);

impl StatusFlags {
    /// Bit 0: the IMO wrapped past the end of the region.
    pub fn overflow(&self) -> (r: bool)
        ensures
            r == bit_of_u8(self.0, 0),
    {
        get_bit_u8(self.0, 0)
    }

    /// Sets bit 0.
    pub fn set_overflow(&mut self, value: bool)
        ensures
            final(self).0 == with_bit_u8(old(self).0, 0, value),
    {
        self.0 = put_bit_u8(self.0, 0, value);
    }

    /// Bit 1: a write was attempted on a read-only region.
    pub fn read_only_error(&self) -> (r: bool)
        ensures
            r == bit_of_u8(self.0, 1),
    {
        get_bit_u8(self.0, 1)
    }

    /// Sets bit 1.
    pub fn set_read_only_error(&mut self, value: bool)
        ensures
            final(self).0 == with_bit_u8(old(self).0, 1, value),
    {
        self.0 = put_bit_u8(self.0, 1, value);
    }

    /// Bit 2: a transfer was attempted while a polling region was not ready.
    pub fn polling_error(&self) -> (r: bool)
        ensures
            r == bit_of_u8(self.0, 2),
    {
        get_bit_u8(self.0, 2)
    }

    /// Sets bit 2.
    pub fn set_polling_error(&mut self, value: bool)
        ensures
            final(self).0 == with_bit_u8(old(self).0, 2, value),
    {
        self.0 = put_bit_u8(self.0, 2, value);
    }
}

/// Byte 1, bits 0-2: memory-window CMS region type.
#[derive(Debug, Clone, Copy, PartialEq, Eq, Structural)]
pub enum CmsRegionType {
    /// Code space for recovery (read/write) (0b000).
    CodeSpace,
    /// Log in the defined debug format (read only) (0b001).
    Log,
    /// Vendor defined region (read/write) (0b100).
    VendorRw,
    /// Vendor defined region (read only) (0b101).
    VendorRo,
    /// Vendor defined region (write only) (0b110).
    VendorWo,
    /// Unsupported region (address space out of range) (0b111).
    Unsupported,
}

impl CmsRegionType {
    /// The code of each variant on the wire.
    pub open spec fn spec_code(self) -> u8 {
        match self {
            CmsRegionType::CodeSpace => 0b000,
            CmsRegionType::Log => 0b001,
            CmsRegionType::VendorRw => 0b100,
            CmsRegionType::VendorRo => 0b101,
            CmsRegionType::VendorWo => 0b110,
            CmsRegionType::Unsupported => 0b111,
        }
    }

    /// Decoding of a code, with an error for the reserved codes.
    pub open spec fn spec_from_code(value: u8) -> Result<Self, OcpError> {
        if value == 0b000 {
            Ok(CmsRegionType::CodeSpace)
        } else if value == 0b001 {
            Ok(CmsRegionType::Log)
        } else if value == 0b100 {
            Ok(CmsRegionType::VendorRw)
        } else if value == 0b101 {
            Ok(CmsRegionType::VendorRo)
        } else if value == 0b110 {
            Ok(CmsRegionType::VendorWo)
        } else if value == 0b111 {
            Ok(CmsRegionType::Unsupported)
        } else {
            Err(OcpError::IndirectStatusInvalidCmsRegionType)
        }
    }

    /// The code on the wire.
    pub fn to_byte(self) -> (r: u8)
        ensures
            r == self.spec_code(),
    {
        match self {
            CmsRegionType::CodeSpace => 0b000,
            CmsRegionType::Log => 0b001,
            CmsRegionType::VendorRw => 0b100,
            CmsRegionType::VendorRo => 0b101,
            CmsRegionType::VendorWo => 0b110,
            CmsRegionType::Unsupported => 0b111,
        }
    }

    /// Whether data can be written into a region of this type: every type
    /// but the read-only ones (log and vendor read-only).
    pub open spec fn spec_writable(self) -> bool {
        !(self == CmsRegionType::Log || self == CmsRegionType::VendorRo)
    }

    /// Whether data can be read from a region of this type: every type but
    /// the write-only one (vendor write-only).
    pub open spec fn spec_readable(self) -> bool {
        self != CmsRegionType::VendorWo
    }

    /// Whether data can be written into a region of this type.
    pub fn is_writable(self) -> (r: bool)
        ensures
            r == self.spec_writable(),
    {
        match self {
            CmsRegionType::Log | CmsRegionType::VendorRo => false,
            _ => true,
        }
    }

    /// Whether data can be read from a region of this type.
    pub fn is_readable(self) -> (r: bool)
        ensures
            r == self.spec_readable(),
    {
        match self {
            CmsRegionType::VendorWo => false,
            _ => true,
        }
    }
}

impl vstd::std_specs::convert::TryFromSpecImpl<u8> for CmsRegionType {
    open spec fn obeys_try_from_spec() -> bool {
        true
    }

    open spec fn try_from_spec(v: u8) -> Result<Self, OcpError> {
        Self::spec_from_code(v)
    }
}

/// The access table of memory-window regions: only the read-only types (log
/// and vendor read-only) refuse writes, and only the write-only type (vendor
/// write-only) refuses reads; code and vendor read/write regions take both.
pub proof fn lemma_cms_region_access(t: CmsRegionType)
    ensures
        t.spec_writable() <==> !(t == CmsRegionType::Log || t == CmsRegionType::VendorRo),
        t.spec_readable() <==> t != CmsRegionType::VendorWo,
        CmsRegionType::VendorRo.spec_readable() && !CmsRegionType::VendorRo.spec_writable(),
        CmsRegionType::Log.spec_readable() && !CmsRegionType::Log.spec_writable(),
        CmsRegionType::VendorWo.spec_writable() && !CmsRegionType::VendorWo.spec_readable(),
        CmsRegionType::CodeSpace.spec_readable() && CmsRegionType::CodeSpace.spec_writable(),
        CmsRegionType::VendorRw.spec_readable() && CmsRegionType::VendorRw.spec_writable(),
{
}

/// Every region type decodes from its own code, and a code decodes only to
/// the region type that has it.
pub proof fn lemma_cms_region_type_round_trip(t: CmsRegionType, v: u8)
    ensures
        CmsRegionType::spec_from_code(t.spec_code()) == Ok::<CmsRegionType, OcpError>(t),
        CmsRegionType::spec_from_code(v) matches Ok(u) ==> u.spec_code() == v,
{
}

impl TryFrom<u8> for CmsRegionType {
    type Error = OcpError;

    fn try_from(value: u8) -> (r: Result<Self, OcpError>)
        ensures
            r == Self::spec_from_code(value),
    {
        match value {
            0b000 => Ok(CmsRegionType::CodeSpace),
            0b001 => Ok(CmsRegionType::Log),
            0b100 => Ok(CmsRegionType::VendorRw),
            0b101 => Ok(CmsRegionType::VendorRo),
            0b110 => Ok(CmsRegionType::VendorWo),
            0b111 => Ok(CmsRegionType::Unsupported),
            _ => Err(OcpError::IndirectStatusInvalidCmsRegionType),
        }
    }
}

/// INDIRECT_STATUS response (8 bytes on the wire).
///
/// | Byte | Field                                  |
/// |------|----------------------------------------|
/// | 0    | Status flags                           |
/// | 1    | Region type (bits 0-2), polling (bit 3) |
/// | 2-3  | Reserved                               |
/// | 4-7  | Region size in 4-byte units (LE)       |
#[derive(Debug, Clone, Copy, PartialEq, Eq, Structural)]
pub struct IndirectStatus {
    status: StatusFlags,
    region_type: CmsRegionType,
    polling: bool,
    size_4b: u32,
}

impl IndirectStatus {
    /// The status flags held.
    pub closed spec fn spec_flags(self) -> StatusFlags {
        self.status
    }

    /// The region type held.
    pub closed spec fn spec_region_type(self) -> CmsRegionType {
        self.region_type
    }

    /// Whether the region requires polling.
    pub closed spec fn spec_polling(self) -> bool {
        self.polling
    }

    /// The region size held, in 4-byte units.
    pub closed spec fn spec_size_4b(self) -> u32 {
        self.size_4b
    }

    /// The eight bytes on the wire; the reserved bytes 2-3 are zero.
    pub open spec fn spec_message(self) -> Seq<u8> {
        seq![
            self.spec_flags().0,
            (self.spec_region_type().spec_code() + if self.spec_polling() {
                8u8
            } else {
                0u8
            }) as u8,
            0u8,
            0u8,
        ] + le_bytes_u32(self.spec_size_4b())
    }

    /// Create a new INDIRECT_STATUS response for a region of `region_size`
    /// bytes; the size is reported in 4-byte units (rounded down).
    pub fn new(status: StatusFlags, region_type: CmsRegionType, polling: bool, region_size: u32) -> (r: Self)
        ensures
            r.spec_flags() == status,
            r.spec_region_type() == region_type,
            r.spec_polling() == polling,
            r.spec_size_4b() == region_size / 4,
    {
        Self { status, region_type, polling, size_4b: region_size / 4 }
    }

    /// Byte 0: the status flags.
    pub fn status_flags(&self) -> (r: StatusFlags)
        ensures
            r == self.spec_flags(),
    {
        self.status
    }

    /// Byte 1, bits 0-2: the region type.
    pub fn cms_region_type(&self) -> (r: CmsRegionType)
        ensures
            r == self.spec_region_type(),
    {
        self.region_type
    }

    /// Byte 1, bit 3: the region requires polling.
    pub fn polling(&self) -> (r: bool)
        ensures
            r == self.spec_polling(),
    {
        self.polling
    }

    /// Bytes 4-7: the region size in 4-byte units.
    pub fn size_4b(&self) -> (r: u32)
        ensures
            r == self.spec_size_4b(),
    {
        self.size_4b
    }

    /// Serialize into the 8-byte wire representation.
    pub fn to_message(self) -> (r: [u8; MESSAGE_LEN])
        ensures
            r@ == self.spec_message(),
    {
        let size = u32_to_le(self.size_4b);
        let type_byte = self.region_type.to_byte() + if self.polling {
            8
        } else {
            0
        };
        let r = [self.status.0, type_byte, 0x00, 0x00, size[0], size[1], size[2], size[3]];
        assert(r@ =~= self.spec_message());
        r
    }
}

} // verus!
