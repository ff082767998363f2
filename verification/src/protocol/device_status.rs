//! DEVICE_STATUS (cmd=0x24) response structure.
//!
//! A variable-length RO command (7-255 bytes) reporting the device status,
//! the last protocol error (cleared when read), the recovery reason code, a
//! heartbeat counter and optional vendor status bytes. Required (scope A).

use core::convert::TryFrom;
use vstd::prelude::*;

use crate::bits::{copy_at, le_bytes_u16, u16_to_le};
use crate::error::OcpError;
use crate::protocol::device_id::zeros;

verus! {

/// Minimum wire size of a DEVICE_STATUS message (no vendor status).
pub const MIN_MESSAGE_LEN: usize = 7;

/// Maximum wire size of a DEVICE_STATUS message.
pub const MAX_MESSAGE_LEN: usize = 255;

/// Maximum length of the vendor status in bytes.
pub const MAX_VENDOR_STATUS_LEN: usize = 248;

/// Largest heartbeat value (12 bits).
pub const MAX_HEARTBEAT: u16 = 4095;

/// Byte 0: Device Status.
#[derive(Debug, Clone, Copy, PartialEq, Eq, Structural)]
pub enum DeviceStatusValue {
    /// Status pending, the device is still booting (0x00).
    StatusPending,
    /// Device healthy (0x01).
    Healthy,
    /// Device error, a soft error or other error state (0x02).
    DeviceError,
    /// Recovery mode, ready to accept a recovery image (0x03).
    RecoveryMode,
    /// Recovery pending, waiting for activation (0x04).
    RecoveryPending,
    /// Running the recovery image (0x05).
    RunningRecoveryImage,
    /// Boot failure (0x0E).
    BootFailure,
    /// Fatal error (0x0F).
    FatalError,
}

impl DeviceStatusValue {
    /// The code of each variant on the wire.
    pub open spec fn spec_code(self) -> u8 {
        match self {
            DeviceStatusValue::StatusPending => 0x00,
            DeviceStatusValue::Healthy => 0x01,
            DeviceStatusValue::DeviceError => 0x02,
            DeviceStatusValue::RecoveryMode => 0x03,
            DeviceStatusValue::RecoveryPending => 0x04,
            DeviceStatusValue::RunningRecoveryImage => 0x05,
            DeviceStatusValue::BootFailure => 0x0E,
            DeviceStatusValue::FatalError => 0x0F,
        }
    }

    /// Decoding of a code, with an error for the reserved codes.
    pub open spec fn spec_from_code(value: u8) -> Result<Self, OcpError> {
        if value == 0x00 {
            Ok(DeviceStatusValue::StatusPending)
        } else if value == 0x01 {
            Ok(DeviceStatusValue::Healthy)
        } else if value == 0x02 {
            Ok(DeviceStatusValue::DeviceError)
        } else if value == 0x03 {
            Ok(DeviceStatusValue::RecoveryMode)
        } else if value == 0x04 {
            Ok(DeviceStatusValue::RecoveryPending)
        } else if value == 0x05 {
            Ok(DeviceStatusValue::RunningRecoveryImage)
        } else if value == 0x0E {
            Ok(DeviceStatusValue::BootFailure)
        } else if value == 0x0F {
            Ok(DeviceStatusValue::FatalError)
        } else {
            Err(OcpError::DeviceStatusInvalidStatus)
        }
    }

    /// The code on the wire.
    pub fn to_byte(self) -> (r: u8)
        ensures
            r == self.spec_code(),
    {
        match self {
            DeviceStatusValue::StatusPending => 0x00,
            DeviceStatusValue::Healthy => 0x01,
            DeviceStatusValue::DeviceError => 0x02,
            DeviceStatusValue::RecoveryMode => 0x03,
            DeviceStatusValue::RecoveryPending => 0x04,
            DeviceStatusValue::RunningRecoveryImage => 0x05,
            DeviceStatusValue::BootFailure => 0x0E,
            DeviceStatusValue::FatalError => 0x0F,
        }
    }
}

impl vstd::std_specs::convert::TryFromSpecImpl<u8> for DeviceStatusValue {
    open spec fn obeys_try_from_spec() -> bool {
        true
    }

    open spec fn try_from_spec(v: u8) -> Result<Self, OcpError> {
        Self::spec_from_code(v)
    }
}

impl TryFrom<u8> for DeviceStatusValue {
    type Error = OcpError;

    fn try_from(value: u8) -> (r: Result<Self, OcpError>)
        ensures
            r == Self::spec_from_code(value),
    {
        match value {
            0x00 => Ok(DeviceStatusValue::StatusPending),
            0x01 => Ok(DeviceStatusValue::Healthy),
            0x02 => Ok(DeviceStatusValue::DeviceError),
            0x03 => Ok(DeviceStatusValue::RecoveryMode),
            0x04 => Ok(DeviceStatusValue::RecoveryPending),
            0x05 => Ok(DeviceStatusValue::RunningRecoveryImage),
            0x0E => Ok(DeviceStatusValue::BootFailure),
            0x0F => Ok(DeviceStatusValue::FatalError),
            _ => Err(OcpError::DeviceStatusInvalidStatus),
        }
    }
}

/// Byte 1: Protocol Error (cleared when DEVICE_STATUS is read).
#[derive(Debug, Clone, Copy, PartialEq, Eq, Structural)]
pub enum ProtocolError {
    /// No protocol error (0x00).
    NoError,
    /// Unsupported or write-protected command (0x01).
    UnsupportedCommand,
    /// Unsupported parameter (0x02).
    UnsupportedParameter,
    /// Write with a wrong byte count (0x03).
    LengthWriteError,
    /// CRC or PEC error reported by the transport (0x04).
    CrcError,
    /// Any other protocol error (0xFF).
    GeneralProtocolError,
}

impl ProtocolError {
    /// The code of each variant on the wire.
    pub open spec fn spec_code(self) -> u8 {
        match self {
            ProtocolError::NoError => 0x00,
            ProtocolError::UnsupportedCommand => 0x01,
            ProtocolError::UnsupportedParameter => 0x02,
            ProtocolError::LengthWriteError => 0x03,
            ProtocolError::CrcError => 0x04,
            ProtocolError::GeneralProtocolError => 0xFF,
        }
    }

    /// Decoding of a code, with an error for the reserved codes.
    pub open spec fn spec_from_code(value: u8) -> Result<Self, OcpError> {
        if value == 0x00 {
            Ok(ProtocolError::NoError)
        } else if value == 0x01 {
            Ok(ProtocolError::UnsupportedCommand)
        } else if value == 0x02 {
            Ok(ProtocolError::UnsupportedParameter)
        } else if value == 0x03 {
            Ok(ProtocolError::LengthWriteError)
        } else if value == 0x04 {
            Ok(ProtocolError::CrcError)
        } else if value == 0xFF {
            Ok(ProtocolError::GeneralProtocolError)
        } else {
            Err(OcpError::DeviceStatusInvalidProtocolError)
        }
    }

    /// The code on the wire.
    pub fn to_byte(self) -> (r: u8)
        ensures
            r == self.spec_code(),
    {
        match self {
            ProtocolError::NoError => 0x00,
            ProtocolError::UnsupportedCommand => 0x01,
            ProtocolError::UnsupportedParameter => 0x02,
            ProtocolError::LengthWriteError => 0x03,
            ProtocolError::CrcError => 0x04,
            ProtocolError::GeneralProtocolError => 0xFF,
        }
    }
}

impl vstd::std_specs::convert::TryFromSpecImpl<u8> for ProtocolError {
    open spec fn obeys_try_from_spec() -> bool {
        true
    }

    open spec fn try_from_spec(v: u8) -> Result<Self, OcpError> {
        Self::spec_from_code(v)
    }
}

impl TryFrom<u8> for ProtocolError {
    type Error = OcpError;

    fn try_from(value: u8) -> (r: Result<Self, OcpError>)
        ensures
            r == Self::spec_from_code(value),
    {
        match value {
            0x00 => Ok(ProtocolError::NoError),
            0x01 => Ok(ProtocolError::UnsupportedCommand),
            0x02 => Ok(ProtocolError::UnsupportedParameter),
            0x03 => Ok(ProtocolError::LengthWriteError),
            0x04 => Ok(ProtocolError::CrcError),
            0xFF => Ok(ProtocolError::GeneralProtocolError),
            _ => Err(OcpError::DeviceStatusInvalidProtocolError),
        }
    }
}

/// Bytes 2-3: Recovery Reason Code.
#[derive(Debug, Clone, Copy, PartialEq, Eq, Structural)]
pub enum RecoveryReasonCode {
    /// No boot failure detected (0x00).
    NoBootFailure,
    /// Generic hardware error (0x01).
    GenericHardwareError,
    /// Generic hardware soft error (0x02).
    GenericHardwareSoftError,
    /// Self-test failure (0x03).
    SelfTestFailure,
    /// Corrupted or missing critical data (0x04).
    CorruptedCriticalData,
    /// Missing or corrupt key manifest (0x05).
    MissingKeyManifest,
    /// Authentication failure on the key manifest (0x06).
    KeyManifestAuthenticationFailure,
    /// Anti-rollback failure on the key manifest (0x07).
    KeyManifestAntiRollbackFailure,
    /// Missing or corrupt boot loader image (0x08).
    MissingBootLoader,
    /// Authentication failure on the boot loader (0x09).
    BootLoaderAuthenticationFailure,
    /// Anti-rollback failure on the boot loader (0x0A).
    BootLoaderAntiRollbackFailure,
    /// Missing or corrupt main firmware image (0x0B).
    MissingMainFirmware,
    /// Authentication failure on the main firmware (0x0C).
    MainFirmwareAuthenticationFailure,
    /// Anti-rollback failure on the main firmware (0x0D).
    MainFirmwareAntiRollbackFailure,
    /// Missing or corrupt recovery firmware (0x0E).
    MissingRecoveryFirmware,
    /// Authentication failure on the recovery firmware (0x0F).
    RecoveryFirmwareAuthenticationFailure,
    /// Anti-rollback failure on the recovery firmware (0x10).
    RecoveryFirmwareAntiRollbackFailure,
    /// Forced recovery (0x11).
    ForcedRecovery,
    /// Vendor specific code (0x80-0xFF).
    VendorSpecific(u8),
}

impl RecoveryReasonCode {
    /// The 16-bit code on the wire.
    pub open spec fn spec_code(self) -> u16 {
        match self {
            RecoveryReasonCode::NoBootFailure => 0x00,
            RecoveryReasonCode::GenericHardwareError => 0x01,
            RecoveryReasonCode::GenericHardwareSoftError => 0x02,
            RecoveryReasonCode::SelfTestFailure => 0x03,
            RecoveryReasonCode::CorruptedCriticalData => 0x04,
            RecoveryReasonCode::MissingKeyManifest => 0x05,
            RecoveryReasonCode::KeyManifestAuthenticationFailure => 0x06,
            RecoveryReasonCode::KeyManifestAntiRollbackFailure => 0x07,
            RecoveryReasonCode::MissingBootLoader => 0x08,
            RecoveryReasonCode::BootLoaderAuthenticationFailure => 0x09,
            RecoveryReasonCode::BootLoaderAntiRollbackFailure => 0x0A,
            RecoveryReasonCode::MissingMainFirmware => 0x0B,
            RecoveryReasonCode::MainFirmwareAuthenticationFailure => 0x0C,
            RecoveryReasonCode::MainFirmwareAntiRollbackFailure => 0x0D,
            RecoveryReasonCode::MissingRecoveryFirmware => 0x0E,
            RecoveryReasonCode::RecoveryFirmwareAuthenticationFailure => 0x0F,
            RecoveryReasonCode::RecoveryFirmwareAntiRollbackFailure => 0x10,
            RecoveryReasonCode::ForcedRecovery => 0x11,
            RecoveryReasonCode::VendorSpecific(v) => v as u16,
        }
    }

    /// Whether the code may be reported: vendor codes lie in 0x80-0xFF.
    pub open spec fn spec_valid(self) -> bool {
        self matches RecoveryReasonCode::VendorSpecific(v) ==> v >= 0x80
    }

    /// The 16-bit code on the wire.
    pub fn to_code(self) -> (r: u16)
        ensures
            r == self.spec_code(),
    {
        match self {
            RecoveryReasonCode::NoBootFailure => 0x00,
            RecoveryReasonCode::GenericHardwareError => 0x01,
            RecoveryReasonCode::GenericHardwareSoftError => 0x02,
            RecoveryReasonCode::SelfTestFailure => 0x03,
            RecoveryReasonCode::CorruptedCriticalData => 0x04,
            RecoveryReasonCode::MissingKeyManifest => 0x05,
            RecoveryReasonCode::KeyManifestAuthenticationFailure => 0x06,
            RecoveryReasonCode::KeyManifestAntiRollbackFailure => 0x07,
            RecoveryReasonCode::MissingBootLoader => 0x08,
            RecoveryReasonCode::BootLoaderAuthenticationFailure => 0x09,
            RecoveryReasonCode::BootLoaderAntiRollbackFailure => 0x0A,
            RecoveryReasonCode::MissingMainFirmware => 0x0B,
            RecoveryReasonCode::MainFirmwareAuthenticationFailure => 0x0C,
            RecoveryReasonCode::MainFirmwareAntiRollbackFailure => 0x0D,
            RecoveryReasonCode::MissingRecoveryFirmware => 0x0E,
            RecoveryReasonCode::RecoveryFirmwareAuthenticationFailure => 0x0F,
            RecoveryReasonCode::RecoveryFirmwareAntiRollbackFailure => 0x10,
            RecoveryReasonCode::ForcedRecovery => 0x11,
            RecoveryReasonCode::VendorSpecific(v) => v as u16,
        }
    }
}

/// Every device status decodes from its own code, and a code decodes only to
/// the status that has it.
pub proof fn lemma_device_status_value_round_trip(s: DeviceStatusValue, v: u8)
    ensures
        DeviceStatusValue::spec_from_code(s.spec_code()) == Ok::<DeviceStatusValue, OcpError>(s),
        DeviceStatusValue::spec_from_code(v) matches Ok(t) ==> t.spec_code() == v,
{
}

/// Every protocol error decodes from its own code, and a code decodes only to
/// the error that has it.
pub proof fn lemma_protocol_error_round_trip(e: ProtocolError, v: u8)
    ensures
        ProtocolError::spec_from_code(e.spec_code()) == Ok::<ProtocolError, OcpError>(e),
        ProtocolError::spec_from_code(v) matches Ok(t) ==> t.spec_code() == v,
{
}

/// Reportable recovery reasons have distinct codes, so a reason code on the
/// wire names one reason.
pub proof fn lemma_recovery_reason_codes_distinct(a: RecoveryReasonCode, b: RecoveryReasonCode)
    requires
        a.spec_valid(),
        b.spec_valid(),
        a.spec_code() == b.spec_code(),
    ensures
        a == b,
{
}

/// The logical bytes of a DEVICE_STATUS message with the given fields.
pub open spec fn device_status_bytes(
    status: DeviceStatusValue,
    protocol_error: ProtocolError,
    recovery_reason: RecoveryReasonCode,
    heartbeat: u16,
    vendor_status: Seq<u8>,
) -> Seq<u8> {
    seq![status.spec_code(), protocol_error.spec_code()] + le_bytes_u16(recovery_reason.spec_code())
        + le_bytes_u16(heartbeat) + seq![vendor_status.len() as u8] + vendor_status
}

/// DEVICE_STATUS response (7-255 bytes on the wire).
///
/// | Byte  | Field                  |
/// |-------|------------------------|
/// | 0     | Device status          |
/// | 1     | Protocol error         |
/// | 2-3   | Recovery reason (LE)   |
/// | 4-5   | Heartbeat (LE)         |
/// | 6     | Vendor status length   |
/// | 7-254 | Vendor status          |
#[derive(Debug, Clone, Copy, PartialEq, Eq)]
pub struct DeviceStatus<'a> {
    status: DeviceStatusValue,
    protocol_error: ProtocolError,
    recovery_reason: RecoveryReasonCode,
    heartbeat: u16,
    vendor_status: &'a [u8],
}

impl<'a> DeviceStatus<'a> {
    /// Every value has a 12-bit heartbeat, at most 248 vendor bytes and a
    /// reportable reason code.
    #[verifier::type_invariant]
    spec fn inv(self) -> bool {
        &&& self.heartbeat <= MAX_HEARTBEAT
        &&& self.vendor_status@.len() <= MAX_VENDOR_STATUS_LEN
        &&& self.recovery_reason.spec_valid()
    }

    /// The device status held.
    pub closed spec fn spec_status(self) -> DeviceStatusValue {
        self.status
    }

    /// The protocol error held.
    pub closed spec fn spec_protocol_error(self) -> ProtocolError {
        self.protocol_error
    }

    /// The recovery reason held.
    pub closed spec fn spec_recovery_reason(self) -> RecoveryReasonCode {
        self.recovery_reason
    }

    /// The heartbeat held.
    pub closed spec fn spec_heartbeat(self) -> u16 {
        self.heartbeat
    }

    /// The vendor status held.
    pub closed spec fn spec_vendor_status(self) -> Seq<u8> {
        self.vendor_status@
    }

    /// The logical bytes of the message.
    pub open spec fn spec_message(self) -> Seq<u8> {
        device_status_bytes(
            self.spec_status(),
            self.spec_protocol_error(),
            self.spec_recovery_reason(),
            self.spec_heartbeat(),
            self.spec_vendor_status(),
        )
    }

    /// Create a new DEVICE_STATUS response.
    ///
    /// Returns an error if the vendor status exceeds 248 bytes, else if the
    /// heartbeat exceeds 12 bits, else if a vendor reason code lies below 0x80.
    pub fn new(
        status: DeviceStatusValue,
        protocol_error: ProtocolError,
        recovery_reason: RecoveryReasonCode,
        heartbeat: u16,
        vendor_status: &'a [u8],
    ) -> (r: Result<Self, OcpError>)
        ensures
            vendor_status@.len() > MAX_VENDOR_STATUS_LEN ==> r == Err::<Self, OcpError>(
                OcpError::DeviceStatusVendorStatusTooLong,
            ),
            vendor_status@.len() <= MAX_VENDOR_STATUS_LEN && heartbeat > MAX_HEARTBEAT ==> r
                == Err::<Self, OcpError>(OcpError::DeviceStatusHeartbeatOutOfRange),
            vendor_status@.len() <= MAX_VENDOR_STATUS_LEN && heartbeat <= MAX_HEARTBEAT
                && !recovery_reason.spec_valid() ==> r == Err::<Self, OcpError>(
                OcpError::DeviceStatusInvalidVendorReasonCode,
            ),
            vendor_status@.len() <= MAX_VENDOR_STATUS_LEN && heartbeat <= MAX_HEARTBEAT
                && recovery_reason.spec_valid() ==> (r matches Ok(s) && s.spec_status() == status
                && s.spec_protocol_error() == protocol_error && s.spec_recovery_reason()
                == recovery_reason && s.spec_heartbeat() == heartbeat && s.spec_vendor_status()
                == vendor_status@),
    {
        if vendor_status.len() > MAX_VENDOR_STATUS_LEN {
            return Err(OcpError::DeviceStatusVendorStatusTooLong);
        }
        if heartbeat > MAX_HEARTBEAT {
            return Err(OcpError::DeviceStatusHeartbeatOutOfRange);
        }
        if let RecoveryReasonCode::VendorSpecific(v) = recovery_reason {
            if v < 0x80 {
                return Err(OcpError::DeviceStatusInvalidVendorReasonCode);
            }
        }
        Ok(Self { status, protocol_error, recovery_reason, heartbeat, vendor_status })
    }

    /// Logical length of the serialized message.
    pub fn message_len(&self) -> (r: usize)
        ensures
            r == MIN_MESSAGE_LEN + self.spec_vendor_status().len(),
            r <= MAX_MESSAGE_LEN,
    {
        proof {
            use_type_invariant(self);
        }
        MIN_MESSAGE_LEN + self.vendor_status.len()
    }

    /// Serialize into the wire representation.
    ///
    /// Returns `(buffer, logical_length)`; bytes beyond `logical_length` are zero.
    pub fn to_message(&self) -> (r: ([u8; MAX_MESSAGE_LEN], usize))
        ensures
            r.1 == self.spec_message().len(),
            r.0@ == self.spec_message() + zeros((MAX_MESSAGE_LEN - self.spec_message().len()) as nat),
    {
        proof {
            use_type_invariant(self);
        }
        let mut buf = [0u8; MAX_MESSAGE_LEN];
        let reason = u16_to_le(self.recovery_reason.to_code());
        let hb = u16_to_le(self.heartbeat);
        buf[0] = self.status.to_byte();
        buf[1] = self.protocol_error.to_byte();
        buf[2] = reason[0];
        buf[3] = reason[1];
        buf[4] = hb[0];
        buf[5] = hb[1];
        buf[6] = self.vendor_status.len() as u8;
        let len = self.message_len();
        copy_at(&mut buf, MIN_MESSAGE_LEN, self.vendor_status);
        assert(buf@ =~= self.spec_message() + zeros((MAX_MESSAGE_LEN - self.spec_message().len()) as nat));
        (buf, len)
    }
}

} // verus!
