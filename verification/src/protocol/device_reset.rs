//! DEVICE_RESET (cmd=0x25) command structure.
//!
//! A 3-byte RW command controlling device reset, forced recovery, and
//! interface mastering. This command is optional (scope A).

use core::convert::TryFrom;
use vstd::prelude::*;

use crate::error::OcpError;

verus! {

/// Wire size of a DEVICE_RESET message in bytes.
pub const MESSAGE_LEN: usize = 3;

/// Byte 0: Device Reset Control.
///
/// "Write 1, Device Clears" -- the Device resets the field after acting on it.
#[derive(Debug, Clone, Copy, PartialEq, Eq, Structural)]
pub enum ResetControl {
    /// No reset requested (0x00).
    NoReset,
    /// Full device reset (0x01). May be bus disruptive.
    ResetDevice,
    /// Management-only reset (0x02). MUST NOT cause bus re-enumeration.
    ResetManagement,
}

impl ResetControl {
    /// The code of each variant on the wire.
    pub open spec fn spec_code(self) -> u8 {
        match self {
            ResetControl::NoReset => 0x00,
            ResetControl::ResetDevice => 0x01,
            ResetControl::ResetManagement => 0x02,
        }
    }

    /// Decoding of a code, with an error for the reserved codes.
    pub open spec fn spec_from_code(value: u8) -> Result<Self, OcpError> {
        if value == 0x00 {
            Ok(ResetControl::NoReset)
        } else if value == 0x01 {
            Ok(ResetControl::ResetDevice)
        } else if value == 0x02 {
            Ok(ResetControl::ResetManagement)
        } else {
            Err(OcpError::DeviceResetInvalidResetControl)
        }
    }

    /// The code on the wire.
    pub fn to_byte(self) -> (r: u8)
        ensures
            r == self.spec_code(),
    {
        match self {
            ResetControl::NoReset => 0x00,
            ResetControl::ResetDevice => 0x01,
            ResetControl::ResetManagement => 0x02,
        }
    }
}

impl vstd::std_specs::convert::TryFromSpecImpl<u8> for ResetControl {
    open spec fn obeys_try_from_spec() -> bool {
        true
    }

    open spec fn try_from_spec(v: u8) -> Result<Self, OcpError> {
        Self::spec_from_code(v)
    }
}

impl TryFrom<u8> for ResetControl {
    type Error = OcpError;

    fn try_from(value: u8) -> (r: Result<Self, OcpError>)
        ensures
            r == Self::spec_from_code(value),
    {
        match value {
            0x00 => Ok(Self::NoReset),
            0x01 => Ok(Self::ResetDevice),
            0x02 => Ok(Self::ResetManagement),
            _ => Err(OcpError::DeviceResetInvalidResetControl),
        }
    }
}

/// Byte 1: Forced Recovery mode.
#[derive(Debug, Clone, Copy, PartialEq, Eq, Structural)]
pub enum ForcedRecoveryMode {
    /// No forced recovery (0x00).
    NoForcedRecovery,
    /// Enter flashless boot mode on next platform reset (0x0E).
    FlashlessBoot,
    /// Enter recovery mode on next platform reset (0x0F).
    EnterRecovery,
}

impl ForcedRecoveryMode {
    /// The code of each variant on the wire.
    pub open spec fn spec_code(self) -> u8 {
        match self {
            ForcedRecoveryMode::NoForcedRecovery => 0x00,
            ForcedRecoveryMode::FlashlessBoot => 0x0E,
            ForcedRecoveryMode::EnterRecovery => 0x0F,
        }
    }

    /// Decoding of a code, with an error for the reserved codes.
    pub open spec fn spec_from_code(value: u8) -> Result<Self, OcpError> {
        if value == 0x00 {
            Ok(ForcedRecoveryMode::NoForcedRecovery)
        } else if value == 0x0E {
            Ok(ForcedRecoveryMode::FlashlessBoot)
        } else if value == 0x0F {
            Ok(ForcedRecoveryMode::EnterRecovery)
        } else {
            Err(OcpError::DeviceResetInvalidForcedRecoveryMode)
        }
    }

    /// The code on the wire.
    pub fn to_byte(self) -> (r: u8)
        ensures
            r == self.spec_code(),
    {
        match self {
            ForcedRecoveryMode::NoForcedRecovery => 0x00,
            ForcedRecoveryMode::FlashlessBoot => 0x0E,
            ForcedRecoveryMode::EnterRecovery => 0x0F,
        }
    }
}

impl vstd::std_specs::convert::TryFromSpecImpl<u8> for ForcedRecoveryMode {
    open spec fn obeys_try_from_spec() -> bool {
        true
    }

    open spec fn try_from_spec(v: u8) -> Result<Self, OcpError> {
        Self::spec_from_code(v)
    }
}

impl TryFrom<u8> for ForcedRecoveryMode {
    type Error = OcpError;

    fn try_from(value: u8) -> (r: Result<Self, OcpError>)
        ensures
            r == Self::spec_from_code(value),
    {
        match value {
            0x00 => Ok(ForcedRecoveryMode::NoForcedRecovery),
            0x0E => Ok(ForcedRecoveryMode::FlashlessBoot),
            0x0F => Ok(ForcedRecoveryMode::EnterRecovery),
            _ => Err(OcpError::DeviceResetInvalidForcedRecoveryMode),
        }
    }
}

/// Byte 2: Interface Control.
///
/// Controls target-initiated transactions (e.g. SMBus mastering).
/// Device MUST power on with mastering disabled.
#[derive(Debug, Clone, Copy, PartialEq, Eq, Structural)]
pub enum InterfaceControl {
    /// Disable interface mastering (0x00).
    DisableMastering,
    /// Enable interface mastering (0x01).
    EnableMastering,
}

impl InterfaceControl {
    /// The code of each variant on the wire.
    pub open spec fn spec_code(self) -> u8 {
        match self {
            InterfaceControl::DisableMastering => 0x00,
            InterfaceControl::EnableMastering => 0x01,
        }
    }

    /// Decoding of a code, with an error for the reserved codes.
    pub open spec fn spec_from_code(value: u8) -> Result<Self, OcpError> {
        if value == 0x00 {
            Ok(InterfaceControl::DisableMastering)
        } else if value == 0x01 {
            Ok(InterfaceControl::EnableMastering)
        } else {
            Err(OcpError::DeviceResetInvalidInterfaceControl)
        }
    }

    /// The code on the wire.
    pub fn to_byte(self) -> (r: u8)
        ensures
            r == self.spec_code(),
    {
        match self {
            InterfaceControl::DisableMastering => 0x00,
            InterfaceControl::EnableMastering => 0x01,
        }
    }
}

impl vstd::std_specs::convert::TryFromSpecImpl<u8> for InterfaceControl {
    open spec fn obeys_try_from_spec() -> bool {
        true
    }

    open spec fn try_from_spec(v: u8) -> Result<Self, OcpError> {
        Self::spec_from_code(v)
    }
}

impl TryFrom<u8> for InterfaceControl {
    type Error = OcpError;

    fn try_from(value: u8) -> (r: Result<Self, OcpError>)
        ensures
            r == Self::spec_from_code(value),
    {
        match value {
            0x00 => Ok(InterfaceControl::DisableMastering),
            0x01 => Ok(InterfaceControl::EnableMastering),
            _ => Err(OcpError::DeviceResetInvalidInterfaceControl),
        }
    }
}

/// DEVICE_RESET command (3 bytes on the wire).
#[derive(Debug, Clone, Copy, PartialEq, Eq, Structural)]
pub struct DeviceReset {
    /// Byte 0: Reset control.
    pub reset_control: ResetControl,
    /// Byte 1: Forced recovery mode selection.
    pub forced_recovery: ForcedRecoveryMode,
    /// Byte 2: Interface mastering control.
    pub interface_control: InterfaceControl,
}

impl DeviceReset {
    /// The three bytes on the wire.
    pub open spec fn spec_message(self) -> Seq<u8> {
        seq![
            self.reset_control.spec_code(),
            self.forced_recovery.spec_code(),
            self.interface_control.spec_code(),
        ]
    }

    /// What parsing a message gives: a length error first, then the error of
    /// the first field (in byte order) that holds a reserved value.
    pub open spec fn spec_from_message(msg: Seq<u8>) -> Result<DeviceReset, OcpError> {
        if msg.len() < MESSAGE_LEN {
            Err(OcpError::MessageTooShort)
        } else if msg.len() > MESSAGE_LEN {
            Err(OcpError::MessageTooLong)
        } else {
            match ResetControl::spec_from_code(msg[0]) {
                Err(e) => Err(e),
                Ok(reset_control) => match ForcedRecoveryMode::spec_from_code(msg[1]) {
                    Err(e) => Err(e),
                    Ok(forced_recovery) => match InterfaceControl::spec_from_code(msg[2]) {
                        Err(e) => Err(e),
                        Ok(interface_control) => Ok(
                            DeviceReset { reset_control, forced_recovery, interface_control },
                        ),
                    },
                },
            }
        }
    }

    pub fn new(
        reset_control: ResetControl,
        forced_recovery: ForcedRecoveryMode,
        interface_control: InterfaceControl,
    ) -> (r: Self)
        ensures
            r == (DeviceReset { reset_control, forced_recovery, interface_control }),
    {
        Self { reset_control, forced_recovery, interface_control }
    }

    /// Deserialize from a byte slice.
    ///
    /// Returns an error if the slice is not exactly [`MESSAGE_LEN`] bytes long
    /// or contains a reserved value in any field.
    pub fn from_message(msg: &[u8]) -> (r: Result<Self, OcpError>)
        ensures
            r == Self::spec_from_message(msg@),
    {
        if msg.len() < MESSAGE_LEN {
            return Err(OcpError::MessageTooShort);
        }
        if msg.len() > MESSAGE_LEN {
            return Err(OcpError::MessageTooLong);
        }
        let reset_control = match ResetControl::try_from(msg[0]) {
            Ok(v) => v,
            Err(e) => return Err(e),
        };
        let forced_recovery = match ForcedRecoveryMode::try_from(msg[1]) {
            Ok(v) => v,
            Err(e) => return Err(e),
        };
        let interface_control = match InterfaceControl::try_from(msg[2]) {
            Ok(v) => v,
            Err(e) => return Err(e),
        };
        Ok(Self { reset_control, forced_recovery, interface_control })
    }

    /// Serialize into the 3-byte wire representation.
    pub fn to_message(self) -> (r: [u8; MESSAGE_LEN])
        ensures
            r@ == self.spec_message(),
    {
        let r = [
            self.reset_control.to_byte(),
            self.forced_recovery.to_byte(),
            self.interface_control.to_byte(),
        ];
        assert(r@ =~= self.spec_message());
        r
    }
}

/// Parsing what `to_message` writes gives the same command back.
pub proof fn lemma_device_reset_round_trip(d: DeviceReset)
    ensures
        DeviceReset::spec_from_message(d.spec_message()) == Ok::<DeviceReset, OcpError>(d),
{
}

/// A message that parses is exactly the serialization of what it parses to.
pub proof fn lemma_device_reset_parse_canonical(msg: Seq<u8>)
    ensures
        DeviceReset::spec_from_message(msg) matches Ok(d) ==> d.spec_message() == msg,
{
    if let Ok(d) = DeviceReset::spec_from_message(msg) {
        assert(d.spec_message() =~= msg);
    }
}

} // verus!
