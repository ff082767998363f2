//! INDIRECT_FIFO_STATUS (cmd=0x2E) response structure.
//!
//! A 20-byte RO command reporting status, region type, indices, FIFO size,
//! and max transfer size for the FIFO CMS selected via INDIRECT_FIFO_CTRL.
//! This command is optional (scope R -- recovery interface must be active).

use core::convert::TryFrom;
use vstd::prelude::*;

use crate::bits::{bit_of_u8, get_bit_u8, le_bytes_u32, put_bit_u8, u32_to_le, with_bit_u8};
use crate::error::OcpError;

verus! {

/// Wire size of an INDIRECT_FIFO_STATUS message in bytes.
pub const MESSAGE_LEN: usize = 20;

/// Byte 1, bits 0-2: FIFO CMS region type.
///
/// Unlike the memory-window region type, the FIFO variant has no polling
/// bit, different access directions, and no 0b110 encoding.
#[derive(Debug, Clone, Copy, PartialEq, Eq, Structural)]
pub enum FifoCmsRegionType {
    /// Code space for recovery (Write Only), 0b000.
    CodeSpace,
    /// Log, debug format (Read Only), 0b001.
    Log,
    /// Vendor Defined Region (Write Only), 0b100.
    VendorWo,
    /// Vendor Defined Region (Read Only), 0b101.
    VendorRo,
    /// Unsupported Region (address space out of range), 0b111.
    Unsupported,
}

impl FifoCmsRegionType {
    /// The code of each variant on the wire.
    pub open spec fn spec_code(self) -> u8 {
        match self {
            FifoCmsRegionType::CodeSpace => 0b000,
            FifoCmsRegionType::Log => 0b001,
            FifoCmsRegionType::VendorWo => 0b100,
            FifoCmsRegionType::VendorRo => 0b101,
            FifoCmsRegionType::Unsupported => 0b111,
        }
    }

    /// Decoding of a code, with an error for the reserved codes.
    pub open spec fn spec_from_code(value: u8) -> Result<Self, OcpError> {
        if value == 0b000 {
            Ok(FifoCmsRegionType::CodeSpace)
        } else if value == 0b001 {
            Ok(FifoCmsRegionType::Log)
        } else if value == 0b100 {
            Ok(FifoCmsRegionType::VendorWo)
        } else if value == 0b101 {
            Ok(FifoCmsRegionType::VendorRo)
        } else if value == 0b111 {
            Ok(FifoCmsRegionType::Unsupported)
        } else {
            Err(OcpError::IndirectFifoStatusInvalidRegionType)
        }
    }

    /// Whether data can be pushed into a FIFO of this type: every type but
    /// the read-only ones (log and vendor read-only).
    pub open spec fn spec_writable(self) -> bool {
        !(self == FifoCmsRegionType::Log || self == FifoCmsRegionType::VendorRo)
    }

    /// Whether data can be popped from a FIFO of this type: every type but
    /// the write-only ones (code and vendor write-only).
    pub open spec fn spec_readable(self) -> bool {
        !(self == FifoCmsRegionType::CodeSpace || self == FifoCmsRegionType::VendorWo)
    }

    /// The code on the wire.
    pub fn to_byte(self) -> (r: u8)
        ensures
            r == self.spec_code(),
    {
        match self {
            FifoCmsRegionType::CodeSpace => 0b000,
            FifoCmsRegionType::Log => 0b001,
            FifoCmsRegionType::VendorWo => 0b100,
            FifoCmsRegionType::VendorRo => 0b101,
            FifoCmsRegionType::Unsupported => 0b111,
        }
    }

    /// Whether data can be pushed into a FIFO of this type.
    pub fn is_writable(self) -> (r: bool)
        ensures
            r == self.spec_writable(),
    {
        match self {
            FifoCmsRegionType::Log | FifoCmsRegionType::VendorRo => false,
            _ => true,
        }
    }

    /// Whether data can be popped from a FIFO of this type.
    pub fn is_readable(self) -> (r: bool)
        ensures
            r == self.spec_readable(),
    {
        match self {
            FifoCmsRegionType::CodeSpace | FifoCmsRegionType::VendorWo => false,
            _ => true,
        }
    }
}

impl vstd::std_specs::convert::TryFromSpecImpl<u8> for FifoCmsRegionType {
    open spec fn obeys_try_from_spec() -> bool {
        true
    }

    open spec fn try_from_spec(v: u8) -> Result<Self, OcpError> {
        Self::spec_from_code(v)
    }
}

/// The access table of FIFO regions: the read-only types (log and vendor
/// read-only) refuse pushes, and the write-only types (code and vendor
/// write-only) refuse pops.
pub proof fn lemma_fifo_region_access(t: FifoCmsRegionType)
    ensures
        t.spec_writable() <==> !(t == FifoCmsRegionType::Log || t == FifoCmsRegionType::VendorRo),
        t.spec_readable() <==> !(t == FifoCmsRegionType::CodeSpace || t
            == FifoCmsRegionType::VendorWo),
        !FifoCmsRegionType::VendorRo.spec_writable() && FifoCmsRegionType::VendorRo.spec_readable(),
        !FifoCmsRegionType::Log.spec_writable() && FifoCmsRegionType::Log.spec_readable(),
        FifoCmsRegionType::CodeSpace.spec_writable() && !FifoCmsRegionType::CodeSpace.spec_readable(),
        FifoCmsRegionType::VendorWo.spec_writable() && !FifoCmsRegionType::VendorWo.spec_readable(),
{
}

impl TryFrom<u8> for FifoCmsRegionType {
    type Error = OcpError;

    fn try_from(value: u8) -> (r: Result<Self, OcpError>)
        ensures
            r == Self::spec_from_code(value),
    {
        match value {
            0b000 => Ok(Self::CodeSpace),
            0b001 => Ok(Self::Log),
            0b100 => Ok(Self::VendorWo),
            0b101 => Ok(Self::VendorRo),
            0b111 => Ok(Self::Unsupported),
            _ => Err(OcpError::IndirectFifoStatusInvalidRegionType),
        }
    }
}

/// Every region type decodes from its own code, and a code decodes only to
/// the type that has it.
pub proof fn lemma_fifo_region_type_round_trip(t: FifoCmsRegionType, v: u8)
    ensures
        FifoCmsRegionType::spec_from_code(t.spec_code()) == Ok::<FifoCmsRegionType, OcpError>(t),
        FifoCmsRegionType::spec_from_code(v) matches Ok(u) ==> u.spec_code() == v,
{
}

/// Byte 0 of INDIRECT_FIFO_STATUS — FIFO status flags.
#[derive(Debug, Clone, Copy, PartialEq, Eq, Structural)]
pub struct FifoStatusFlags(pub u8);

impl FifoStatusFlags {
    /// Bit 0: FIFO is empty.
    pub fn empty(&self) -> (r: bool)
        ensures
            r == bit_of_u8(self.0, 0),
    {
        get_bit_u8(self.0, 0)
    }

    /// Sets bit 0.
    pub fn set_empty(&mut self, value: bool)
        ensures
            final(self).0 == with_bit_u8(old(self).0, 0, value),
    {
        self.0 = put_bit_u8(self.0, 0, value);
    }

    /// Bit 1: FIFO is full.
    pub fn full(&self) -> (r: bool)
        ensures
            r == bit_of_u8(self.0, 1),
    {
        get_bit_u8(self.0, 1)
    }

    /// Sets bit 1.
    pub fn set_full(&mut self, value: bool)
        ensures
            final(self).0 == with_bit_u8(old(self).0, 1, value),
    {
        self.0 = put_bit_u8(self.0, 1, value);
    }
}

/// INDIRECT_FIFO_STATUS response (20 bytes on the wire).
///
/// | Byte  | Field             |
/// |-------|-------------------|
/// | 0     | Status flags      |
/// | 1     | Region type       |
/// | 2-3   | Reserved          |
/// | 4-7   | Write Index (LE)  |
/// | 8-11  | Read Index (LE)   |
/// | 12-15 | FIFO Size (LE)    |
/// | 16-19 | Max Xfer Size (LE)|
#[derive(Debug, Clone, Copy, PartialEq, Eq, Structural)]
pub struct IndirectFifoStatus {
    /// Byte 0: FIFO status flags.
    status: FifoStatusFlags,
    /// Byte 1: region type (bits 0-2).
    region_type: FifoCmsRegionType,
    /// Bytes 4-7: Write Index in 4B units (little-endian).
    pub write_index: u32,
    /// Bytes 8-11: Read Index in 4B units (little-endian).
    pub read_index: u32,
    /// Bytes 12-15: FIFO size in 4B units (little-endian).
    pub fifo_size: u32,
    /// Bytes 16-19: Max transfer size in 4B units (little-endian).
    pub max_transfer_size: u32,
}

impl IndirectFifoStatus {
    /// The status flags held.
    pub closed spec fn spec_flags(self) -> FifoStatusFlags {
        self.status
    }

    /// The region type held.
    pub closed spec fn spec_region_type(self) -> FifoCmsRegionType {
        self.region_type
    }

    /// The write index held.
    pub closed spec fn spec_write_index(self) -> u32 {
        self.write_index
    }

    /// The read index held.
    pub closed spec fn spec_read_index(self) -> u32 {
        self.read_index
    }

    /// The FIFO size held.
    pub closed spec fn spec_fifo_size(self) -> u32 {
        self.fifo_size
    }

    /// The max transfer size held.
    pub closed spec fn spec_max_transfer_size(self) -> u32 {
        self.max_transfer_size
    }

    /// The twenty bytes on the wire; the reserved bytes 2-3 are zero.
    pub open spec fn spec_message(self) -> Seq<u8> {
        seq![self.spec_flags().0, self.spec_region_type().spec_code(), 0u8, 0u8] + le_bytes_u32(
            self.spec_write_index(),
        ) + le_bytes_u32(self.spec_read_index()) + le_bytes_u32(self.spec_fifo_size())
            + le_bytes_u32(self.spec_max_transfer_size())
    }

    /// Create a new INDIRECT_FIFO_STATUS response.
    pub fn new(
        status: FifoStatusFlags,
        region_type: FifoCmsRegionType,
        write_index: u32,
        read_index: u32,
        fifo_size: u32,
        max_transfer_size: u32,
    ) -> (r: Self)
        ensures
            r.spec_flags() == status,
            r.spec_region_type() == region_type,
            r.spec_write_index() == write_index,
            r.spec_read_index() == read_index,
            r.spec_fifo_size() == fifo_size,
            r.spec_max_transfer_size() == max_transfer_size,
    {
        Self { status, region_type, write_index, read_index, fifo_size, max_transfer_size }
    }

    /// Bit 0: FIFO is empty.
    pub fn empty(&self) -> (r: bool)
        ensures
            r == bit_of_u8(self.spec_flags().0, 0),
    {
        self.status.empty()
    }

    /// Bit 1: FIFO is full.
    pub fn full(&self) -> (r: bool)
        ensures
            r == bit_of_u8(self.spec_flags().0, 1),
    {
        self.status.full()
    }

    /// Byte 1, bits 0-2: FIFO CMS region type.
    pub fn region_type(&self) -> (r: FifoCmsRegionType)
        ensures
            r == self.spec_region_type(),
    {
        self.region_type
    }

    /// Serialize into the 20-byte wire representation.
    ///
    /// Reserved bytes 2-3 are written as zero.
    pub fn to_message(self) -> (r: [u8; MESSAGE_LEN])
        ensures
            r@ == self.spec_message(),
    {
        let wi = u32_to_le(self.write_index);
        let ri = u32_to_le(self.read_index);
        let fs = u32_to_le(self.fifo_size);
        let mt = u32_to_le(self.max_transfer_size);
        let r = [
            self.status.0,
            self.region_type.to_byte(),
            0x00,
            0x00,
            wi[0],
            wi[1],
            wi[2],
            wi[3],
            ri[0],
            ri[1],
            ri[2],
            ri[3],
            fs[0],
            fs[1],
            fs[2],
            fs[3],
            mt[0],
            mt[1],
            mt[2],
            mt[3],
        ];
        assert(r@ =~= self.spec_message());
        r
    }
}

} // verus!
