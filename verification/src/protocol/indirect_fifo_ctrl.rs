//! INDIRECT_FIFO_CTRL (cmd=0x2D) command structure.
//!
//! A 6-byte RW command controlling CMS selection, FIFO reset, and image size
//! for FIFO-based Component Memory Spaces (PROT_CAP bit 12).
//! This command is optional (scope R -- recovery interface must be active).

use vstd::prelude::*;

use crate::bits::{le_bytes_u32, lemma_le_u32, u32_from_le, u32_of_le, u32_to_le};
use crate::error::OcpError;

verus! {

/// Wire size of an INDIRECT_FIFO_CTRL message in bytes.
pub const MESSAGE_LEN: usize = 6;

/// INDIRECT_FIFO_CTRL command (6 bytes on the wire).
///
/// | Byte | Field            |
/// |------|------------------|
/// | 0    | CMS              |
/// | 1    | Reset            |
/// | 2-5  | Image Size (LE)  |
#[derive(Debug, Clone, Copy, PartialEq, Eq, Structural)]
pub struct IndirectFifoCtrl {
    /// Byte 0: Component Memory Space index (0-255).
    pub cms: u8,
    /// Byte 1: Reset FIFO (write 1, device clears).
    /// `true` = reset Write Index and Read Index to initial value (FIFO empty).
    /// `false` = idle / no reset.
    pub reset: bool,
    /// Bytes 2-5: Size of the image to be loaded, in 4-byte units (little-endian).
    pub image_size: u32,
}

impl IndirectFifoCtrl {
    /// The six bytes on the wire.
    pub open spec fn spec_message(self) -> Seq<u8> {
        seq![self.cms, if self.reset { 0x01u8 } else { 0x00u8 }] + le_bytes_u32(self.image_size)
    }

    /// What parsing a message gives: a length error first, then an error for a
    /// reserved Reset value (0x02-0xFF).
    pub open spec fn spec_from_message(msg: Seq<u8>) -> Result<IndirectFifoCtrl, OcpError> {
        if msg.len() < MESSAGE_LEN {
            Err(OcpError::MessageTooShort)
        } else if msg.len() > MESSAGE_LEN {
            Err(OcpError::MessageTooLong)
        } else if msg[1] > 0x01 {
            Err(OcpError::IndirectFifoCtrlInvalidReset)
        } else {
            Ok(
                IndirectFifoCtrl {
                    cms: msg[0],
                    reset: msg[1] == 0x01,
                    image_size: u32_of_le(msg[2], msg[3], msg[4], msg[5]),
                },
            )
        }
    }

    /// Create a new INDIRECT_FIFO_CTRL command.
    pub fn new(cms: u8, reset: bool, image_size: u32) -> (r: Self)
        ensures
            r == (IndirectFifoCtrl { cms, reset, image_size }),
    {
        Self { cms, reset, image_size }
    }

    /// Deserialize from a byte slice.
    ///
    /// Returns an error if the slice length does not match [`MESSAGE_LEN`]
    /// or if byte 1 (Reset) contains a reserved value (0x02-0xFF).
    pub fn from_message(msg: &[u8]) -> (r: Result<Self, OcpError>)
        ensures
            r == Self::spec_from_message(msg@),
    {
        if msg.len() < MESSAGE_LEN {
            return Err(OcpError::MessageTooShort);
        }
        if msg.len() > MESSAGE_LEN {
            return Err(OcpError::MessageTooLong);
        }
        let cms = msg[0];
        let reset = match msg[1] {
            0x00 => false,
            0x01 => true,
            _ => return Err(OcpError::IndirectFifoCtrlInvalidReset),
        };
        let image_size = u32_from_le(msg[2], msg[3], msg[4], msg[5]);
        Ok(Self { cms, reset, image_size })
    }

    /// Serialize into the 6-byte wire representation.
    pub fn to_message(self) -> (r: [u8; MESSAGE_LEN])
        ensures
            r@ == self.spec_message(),
    {
        let image_size_bytes = u32_to_le(self.image_size);
        let r = [
            self.cms,
            if self.reset {
                0x01
            } else {
                0x00
            },
            image_size_bytes[0],
            image_size_bytes[1],
            image_size_bytes[2],
            image_size_bytes[3],
        ];
        assert(r@ =~= self.spec_message());
        r
    }
}

/// Parsing what `to_message` writes gives the same command back.
pub proof fn lemma_indirect_fifo_ctrl_round_trip(c: IndirectFifoCtrl)
    ensures
        IndirectFifoCtrl::spec_from_message(c.spec_message()) == Ok::<IndirectFifoCtrl, OcpError>(
            c,
        ),
{
    lemma_le_u32(c.image_size, 0, 0, 0, 0);
}

/// A message that parses is exactly the serialization of what it parses to.
pub proof fn lemma_indirect_fifo_ctrl_parse_canonical(msg: Seq<u8>)
    ensures
        IndirectFifoCtrl::spec_from_message(msg) matches Ok(c) ==> c.spec_message() == msg,
{
    if let Ok(c) = IndirectFifoCtrl::spec_from_message(msg) {
        lemma_le_u32(0, msg[2], msg[3], msg[4], msg[5]);
        assert(c.spec_message() =~= msg);
    }
}

} // verus!
