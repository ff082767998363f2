//! RECOVERY_CTRL (cmd=0x26) command structure.
//!
//! A 3-byte RW command controlling recovery image selection and activation.
//! This command is required (scope A).

use core::convert::TryFrom;
use vstd::prelude::*;

use crate::error::OcpError;

verus! {

/// Wire size of a RECOVERY_CTRL message in bytes.
pub const MESSAGE_LEN: usize = 3;

/// Byte 1: Recovery Image Selection.
#[derive(Debug, Clone, Copy, PartialEq, Eq, Structural)]
pub enum ImageSelection {
    /// No operation (0x00).
    NoOperation,
    /// Use recovery image from memory window (CMS) (0x01).
    MemoryWindow,
    /// Use recovery image stored on Device (local C-image) (0x02).
    LocalCImage,
}

impl ImageSelection {
    /// The code of each variant on the wire.
    pub open spec fn spec_code(self) -> u8 {
        match self {
            ImageSelection::NoOperation => 0x00,
            ImageSelection::MemoryWindow => 0x01,
            ImageSelection::LocalCImage => 0x02,
        }
    }

    /// Decoding of a code, with an error for the reserved codes.
    pub open spec fn spec_from_code(value: u8) -> Result<Self, OcpError> {
        if value == 0x00 {
            Ok(ImageSelection::NoOperation)
        } else if value == 0x01 {
            Ok(ImageSelection::MemoryWindow)
        } else if value == 0x02 {
            Ok(ImageSelection::LocalCImage)
        } else {
            Err(OcpError::RecoveryCtrlInvalidImageSelection)
        }
    }

    /// The code on the wire.
    pub fn to_byte(self) -> (r: u8)
        ensures
            r == self.spec_code(),
    {
        match self {
            ImageSelection::NoOperation => 0x00,
            ImageSelection::MemoryWindow => 0x01,
            ImageSelection::LocalCImage => 0x02,
        }
    }
}

impl vstd::std_specs::convert::TryFromSpecImpl<u8> for ImageSelection {
    open spec fn obeys_try_from_spec() -> bool {
        true
    }

    open spec fn try_from_spec(v: u8) -> Result<Self, OcpError> {
        Self::spec_from_code(v)
    }
}

impl TryFrom<u8> for ImageSelection {
    type Error = OcpError;

    fn try_from(value: u8) -> (r: Result<Self, OcpError>)
        ensures
            r == Self::spec_from_code(value),
    {
        match value {
            0x00 => Ok(Self::NoOperation),
            0x01 => Ok(Self::MemoryWindow),
            0x02 => Ok(Self::LocalCImage),
            _ => Err(OcpError::RecoveryCtrlInvalidImageSelection),
        }
    }
}

/// Byte 2: Activate Recovery Image (Write 1, Device Clears).
#[derive(Debug, Clone, Copy, PartialEq, Eq, Structural)]
pub enum ActivateRecoveryImage {
    /// Do not activate recovery image (0x00).
    DoNotActivate,
    /// Activate recovery image (0x0F).
    Activate,
}

impl ActivateRecoveryImage {
    /// The code of each variant on the wire.
    pub open spec fn spec_code(self) -> u8 {
        match self {
            ActivateRecoveryImage::DoNotActivate => 0x00,
            ActivateRecoveryImage::Activate => 0x0F,
        }
    }

    /// Decoding of a code, with an error for the reserved codes.
    pub open spec fn spec_from_code(value: u8) -> Result<Self, OcpError> {
        if value == 0x00 {
            Ok(ActivateRecoveryImage::DoNotActivate)
        } else if value == 0x0F {
            Ok(ActivateRecoveryImage::Activate)
        } else {
            Err(OcpError::RecoveryCtrlInvalidActivate)
        }
    }

    /// The code on the wire.
    pub fn to_byte(self) -> (r: u8)
        ensures
            r == self.spec_code(),
    {
        match self {
            ActivateRecoveryImage::DoNotActivate => 0x00,
            ActivateRecoveryImage::Activate => 0x0F,
        }
    }
}

impl vstd::std_specs::convert::TryFromSpecImpl<u8> for ActivateRecoveryImage {
    open spec fn obeys_try_from_spec() -> bool {
        true
    }

    open spec fn try_from_spec(v: u8) -> Result<Self, OcpError> {
        Self::spec_from_code(v)
    }
}

impl TryFrom<u8> for ActivateRecoveryImage {
    type Error = OcpError;

    fn try_from(value: u8) -> (r: Result<Self, OcpError>)
        ensures
            r == Self::spec_from_code(value),
    {
        match value {
            0x00 => Ok(Self::DoNotActivate),
            0x0F => Ok(Self::Activate),
            _ => Err(OcpError::RecoveryCtrlInvalidActivate),
        }
    }
}

/// RECOVERY_CTRL command (3 bytes on the wire).
#[derive(Debug, Clone, Copy, PartialEq, Eq, Structural)]
pub struct RecoveryCtrl {
    /// Byte 0: Component Memory Space (CMS) index (0-255). 0 is the default.
    pub cms: u8,
    /// Byte 1: Recovery image selection.
    pub image_selection: ImageSelection,
    /// Byte 2: Activate recovery image.
    pub activate: ActivateRecoveryImage,
}

impl RecoveryCtrl {
    /// The three bytes on the wire.
    pub open spec fn spec_message(self) -> Seq<u8> {
        seq![self.cms, self.image_selection.spec_code(), self.activate.spec_code()]
    }

    /// What parsing a message gives: a length error first, then the error of
    /// the first field (in byte order) that holds a reserved value.
    pub open spec fn spec_from_message(msg: Seq<u8>) -> Result<RecoveryCtrl, OcpError> {
        if msg.len() < MESSAGE_LEN {
            Err(OcpError::MessageTooShort)
        } else if msg.len() > MESSAGE_LEN {
            Err(OcpError::MessageTooLong)
        } else {
            match ImageSelection::spec_from_code(msg[1]) {
                Err(e) => Err(e),
                Ok(image_selection) => match ActivateRecoveryImage::spec_from_code(msg[2]) {
                    Err(e) => Err(e),
                    Ok(activate) => Ok(RecoveryCtrl { cms: msg[0], image_selection, activate }),
                },
            }
        }
    }

    pub fn new(cms: u8, image_selection: ImageSelection, activate: ActivateRecoveryImage) -> (r:
        Self)
        ensures
            r == (RecoveryCtrl { cms, image_selection, activate }),
    {
        Self { cms, image_selection, activate }
    }

    /// Deserialize from a byte slice.
    ///
    /// Returns an error if the slice length does not match [`MESSAGE_LEN`]
    /// or contains a reserved value in any field.
    pub fn from_message(msg: &[u8]) -> (r: Result<Self, OcpError>)
        ensures
            r == Self::spec_from_message(msg@),
    {
        if msg.len() < MESSAGE_LEN {
            return Err(OcpError::MessageTooShort);
        }
        if msg.len() > MESSAGE_LEN {
            return Err(OcpError::MessageTooLong);
        }
        let image_selection = match ImageSelection::try_from(msg[1]) {
            Ok(v) => v,
            Err(e) => return Err(e),
        };
        let activate = match ActivateRecoveryImage::try_from(msg[2]) {
            Ok(v) => v,
            Err(e) => return Err(e),
        };
        Ok(Self { cms: msg[0], image_selection, activate })
    }

    /// Serialize into the 3-byte wire representation.
    pub fn to_message(self) -> (r: [u8; MESSAGE_LEN])
        ensures
            r@ == self.spec_message(),
    {
        let r = [self.cms, self.image_selection.to_byte(), self.activate.to_byte()];
        assert(r@ =~= self.spec_message());
        r
    }
}

/// Parsing what `to_message` writes gives the same command back.
pub proof fn lemma_recovery_ctrl_round_trip(c: RecoveryCtrl)
    ensures
        RecoveryCtrl::spec_from_message(c.spec_message()) == Ok::<RecoveryCtrl, OcpError>(c),
{
}

/// A message that parses is exactly the serialization of what it parses to.
pub proof fn lemma_recovery_ctrl_parse_canonical(msg: Seq<u8>)
    ensures
        RecoveryCtrl::spec_from_message(msg) matches Ok(c) ==> c.spec_message() == msg,
{
    if let Ok(c) = RecoveryCtrl::spec_from_message(msg) {
        assert(c.spec_message() =~= msg);
    }
}

} // verus!
