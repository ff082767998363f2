//! INDIRECT_CTRL (cmd=0x29) command structure.
//!
//! A 6-byte RW command selecting the memory-window CMS and setting the
//! indirect memory offset (IMO) within it. Optional (scope R).

use vstd::prelude::*;

use crate::bits::{le_bytes_u32, lemma_le_u32, u32_from_le, u32_of_le, u32_to_le};
use crate::error::OcpError;

verus! {

/// Wire size of an INDIRECT_CTRL message in bytes.
pub const MESSAGE_LEN: usize = 6;

/// INDIRECT_CTRL command (6 bytes on the wire).
///
/// | Byte | Field                 |
/// |------|-----------------------|
/// | 0    | CMS                   |
/// | 1    | Reserved              |
/// | 2-5  | IMO in bytes (LE)     |
#[derive(Debug, Clone, Copy, PartialEq, Eq, Structural)]
pub struct IndirectCtrl {
    /// Byte 0: Component Memory Space index.
    pub cms: u8,
    /// Bytes 2-5: Indirect memory offset in bytes (4-byte aligned).
    pub imo: u32,
}

impl IndirectCtrl {
    /// The six bytes on the wire; the reserved byte is zero.
    pub open spec fn spec_message(self) -> Seq<u8> {
        seq![self.cms, 0u8] + le_bytes_u32(self.imo)
    }

    /// What parsing a message gives: a length error first, then an error for
    /// an IMO that is not 4-byte aligned. The reserved byte is ignored.
    pub open spec fn spec_from_message(msg: Seq<u8>) -> Result<IndirectCtrl, OcpError> {
        if msg.len() < MESSAGE_LEN {
            Err(OcpError::MessageTooShort)
        } else if msg.len() > MESSAGE_LEN {
            Err(OcpError::MessageTooLong)
        } else if u32_of_le(msg[2], msg[3], msg[4], msg[5]) % 4 != 0 {
            Err(OcpError::IndirectCtrlImoNotAligned)
        } else {
            Ok(IndirectCtrl { cms: msg[0], imo: u32_of_le(msg[2], msg[3], msg[4], msg[5]) })
        }
    }

    /// Deserialize from a byte slice.
    pub fn from_message(msg: &[u8]) -> (r: Result<Self, OcpError>)
        ensures
            r == Self::spec_from_message(msg@),
    {
        if msg.len() < MESSAGE_LEN {
            return Err(OcpError::MessageTooShort);
        }
        if msg.len() > MESSAGE_LEN {
            return Err(OcpError::MessageTooLong);
        }
        let imo = u32_from_le(msg[2], msg[3], msg[4], msg[5]);
        if imo % 4 != 0 {
            return Err(OcpError::IndirectCtrlImoNotAligned);
        }
        Ok(Self { cms: msg[0], imo })
    }

    /// Serialize into the 6-byte wire representation.
    pub fn to_message(self) -> (r: [u8; MESSAGE_LEN])
        ensures
            r@ == self.spec_message(),
    {
        let imo = u32_to_le(self.imo);
        let r = [self.cms, 0x00, imo[0], imo[1], imo[2], imo[3]];
        assert(r@ =~= self.spec_message());
        r
    }
}

/// Parsing what `to_message` writes gives the same command back, for every
/// command with an aligned IMO.
pub proof fn lemma_indirect_ctrl_round_trip(c: IndirectCtrl)
    requires
        c.imo % 4 == 0,
    ensures
        IndirectCtrl::spec_from_message(c.spec_message()) == Ok::<IndirectCtrl, OcpError>(c),
{
    lemma_le_u32(c.imo, 0, 0, 0, 0);
}

} // verus!
