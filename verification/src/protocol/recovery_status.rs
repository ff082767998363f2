//! RECOVERY_STATUS (cmd=0x27) response structure.
//!
//! A 2-byte RO command reporting recovery debug status. Byte 0 packs the
//! device recovery status (bits 0-3) and the recovery image index (bits 4-7);
//! byte 1 is vendor specific.

use core::convert::TryFrom;
use vstd::prelude::*;

use crate::bits::{
    high_nibble, lemma_nibbles, lemma_nibbles_of, low_nibble, with_high_nibble, with_low_nibble,
};
use crate::error::OcpError;

verus! {

/// Wire size of a RECOVERY_STATUS message in bytes.
pub const MESSAGE_LEN: usize = 2;

/// Byte 0, bits 0-3: Device Recovery Status.
#[derive(Debug, Clone, Copy, PartialEq, Eq, Structural)]
pub enum DeviceRecoveryStatus {
    /// Not in recovery mode (0x0).
    NotInRecovery,
    /// Awaiting recovery image (0x1).
    AwaitingImage,
    /// Booting recovery image (0x2).
    BootingImage,
    /// Recovery successful (0x3).
    Success,
    /// Recovery failed (0xC).
    Failed,
    /// Recovery image authentication error (0xD).
    AuthenticationError,
    /// Error entering recovery mode, possibly administratively disabled (0xE).
    ErrorEnteringRecovery,
    /// Invalid component address space (0xF).
    InvalidCms,
}

impl DeviceRecoveryStatus {
    /// The status code of each variant on the wire.
    pub open spec fn spec_code(self) -> u8 {
        match self {
            DeviceRecoveryStatus::NotInRecovery => 0x0,
            DeviceRecoveryStatus::AwaitingImage => 0x1,
            DeviceRecoveryStatus::BootingImage => 0x2,
            DeviceRecoveryStatus::Success => 0x3,
            DeviceRecoveryStatus::Failed => 0xC,
            DeviceRecoveryStatus::AuthenticationError => 0xD,
            DeviceRecoveryStatus::ErrorEnteringRecovery => 0xE,
            DeviceRecoveryStatus::InvalidCms => 0xF,
        }
    }

    /// Decoding of a status code: the variant whose code it is, or an error
    /// for the reserved codes.
    pub open spec fn spec_from_code(value: u8) -> Result<Self, OcpError> {
        if value == 0x0 {
            Ok(DeviceRecoveryStatus::NotInRecovery)
        } else if value == 0x1 {
            Ok(DeviceRecoveryStatus::AwaitingImage)
        } else if value == 0x2 {
            Ok(DeviceRecoveryStatus::BootingImage)
        } else if value == 0x3 {
            Ok(DeviceRecoveryStatus::Success)
        } else if value == 0xC {
            Ok(DeviceRecoveryStatus::Failed)
        } else if value == 0xD {
            Ok(DeviceRecoveryStatus::AuthenticationError)
        } else if value == 0xE {
            Ok(DeviceRecoveryStatus::ErrorEnteringRecovery)
        } else if value == 0xF {
            Ok(DeviceRecoveryStatus::InvalidCms)
        } else {
            Err(OcpError::RecoveryStatusInvalidStatus)
        }
    }

    /// The status code on the wire.
    pub fn to_byte(self) -> (r: u8)
        ensures
            r == self.spec_code(),
    {
        match self {
            DeviceRecoveryStatus::NotInRecovery => 0x0,
            DeviceRecoveryStatus::AwaitingImage => 0x1,
            DeviceRecoveryStatus::BootingImage => 0x2,
            DeviceRecoveryStatus::Success => 0x3,
            DeviceRecoveryStatus::Failed => 0xC,
            DeviceRecoveryStatus::AuthenticationError => 0xD,
            DeviceRecoveryStatus::ErrorEnteringRecovery => 0xE,
            DeviceRecoveryStatus::InvalidCms => 0xF,
        }
    }
}

impl vstd::std_specs::convert::TryFromSpecImpl<u8> for DeviceRecoveryStatus {
    open spec fn obeys_try_from_spec() -> bool {
        true
    }

    open spec fn try_from_spec(v: u8) -> Result<Self, OcpError> {
        Self::spec_from_code(v)
    }
}

impl TryFrom<u8> for DeviceRecoveryStatus {
    type Error = OcpError;

    fn try_from(value: u8) -> (r: Result<Self, OcpError>)
        ensures
            r == Self::spec_from_code(value),
    {
        match value {
            0x0 => Ok(Self::NotInRecovery),
            0x1 => Ok(Self::AwaitingImage),
            0x2 => Ok(Self::BootingImage),
            0x3 => Ok(Self::Success),
            0xC => Ok(Self::Failed),
            0xD => Ok(Self::AuthenticationError),
            0xE => Ok(Self::ErrorEnteringRecovery),
            0xF => Ok(Self::InvalidCms),
            _ => Err(OcpError::RecoveryStatusInvalidStatus),
        }
    }
}

/// Every status decodes from its own code, and a code decodes only to the
/// status that has it.
pub proof fn lemma_recovery_status_code_round_trip(s: DeviceRecoveryStatus, v: u8)
    ensures
        DeviceRecoveryStatus::spec_from_code(s.spec_code()) == Ok::<DeviceRecoveryStatus, OcpError>(s),
        DeviceRecoveryStatus::spec_from_code(v) matches Ok(t) ==> t.spec_code() == v,
        s.spec_code() < 16,
{
}

/// Byte 0 of RECOVERY_STATUS, packing the status nibble and image index.
#[derive(Debug, Clone, Copy, PartialEq, Eq, Structural)]
pub struct RecoveryStatusByte0(pub u8);

impl RecoveryStatusByte0 {
    /// Bits 0-3: Device recovery status code.
    pub fn status(&self) -> (r: u8)
        ensures
            r == low_nibble(self.0),
    {
        self.0 & 0x0F
    }

    /// Sets bits 0-3 to the low four bits of `value`.
    pub fn set_status(&mut self, value: u8)
        ensures
            final(self).0 == with_low_nibble(old(self).0, value),
    {
        self.0 = (self.0 & 0xF0) | (value & 0x0F);
    }

    /// Bits 4-7: Recovery image index (incremented after each successful stage).
    pub fn image_index(&self) -> (r: u8)
        ensures
            r == high_nibble(self.0),
    {
        (self.0 >> 4) & 0x0F
    }

    /// Sets bits 4-7 to the low four bits of `value`.
    pub fn set_image_index(&mut self, value: u8)
        ensures
            final(self).0 == with_high_nibble(old(self).0, value),
    {
        self.0 = (self.0 & 0x0F) | ((value & 0x0F) << 4);
    }
}

/// RECOVERY_STATUS response (2 bytes on the wire).
#[derive(Debug, Clone, Copy, PartialEq, Eq, Structural)]
pub struct RecoveryStatus {
    /// Byte 0: packed status nibble and image index.
    byte0: RecoveryStatusByte0,
    /// Byte 1: Vendor specific status.
    vendor_status: u8,
}

impl RecoveryStatus {
    /// The status nibble of every value is a defined status code.
    #[verifier::type_invariant]
    spec fn inv(self) -> bool {
        DeviceRecoveryStatus::spec_from_code(low_nibble(self.byte0.0)) is Ok
    }

    /// The device recovery status held.
    pub closed spec fn spec_status(self) -> DeviceRecoveryStatus {
        DeviceRecoveryStatus::spec_from_code(low_nibble(self.byte0.0))->Ok_0
    }

    /// The recovery image index held (0-15).
    pub closed spec fn spec_image_index(self) -> u8 {
        high_nibble(self.byte0.0)
    }

    /// The vendor status byte held.
    pub closed spec fn spec_vendor_status(self) -> u8 {
        self.vendor_status
    }

    /// The two bytes on the wire.
    pub open spec fn spec_message(self) -> Seq<u8> {
        seq![
            (self.spec_status().spec_code() + 16 * self.spec_image_index()) as u8,
            self.spec_vendor_status(),
        ]
    }

    /// The image index held is at most 15.
    pub proof fn lemma_image_index_range(self)
        ensures
            self.spec_image_index() < 16,
    {
        lemma_nibbles(self.byte0.0, 0);
    }

    /// Byte 0 of the message decodes back to the status and image index held:
    /// its low nibble is the status code and its high nibble the image index.
    pub proof fn lemma_message_byte0_decodes(self)
        ensures
            DeviceRecoveryStatus::spec_from_code(low_nibble(self.spec_message()[0])) == Ok::<
                DeviceRecoveryStatus,
                OcpError,
            >(self.spec_status()),
            high_nibble(self.spec_message()[0]) == self.spec_image_index(),
    {
        lemma_nibbles(self.byte0.0, 0);
        lemma_recovery_status_code_round_trip(self.spec_status(), 0);
        lemma_nibbles_of(self.spec_status().spec_code(), self.spec_image_index());
    }

    /// Create a new RECOVERY_STATUS response.
    ///
    /// Returns an error exactly when `image_index` exceeds the 4-bit range (0-15).
    pub fn new(status: DeviceRecoveryStatus, image_index: u8, vendor_status: u8) -> (r: Result<
        Self,
        OcpError,
    >)
        ensures
            image_index > 0x0F ==> r == Err::<Self, OcpError>(OcpError::RecoveryStatusImageIndexOutOfRange),
            image_index <= 0x0F ==> (r matches Ok(s) && s.spec_status() == status
                && s.spec_image_index() == image_index && s.spec_vendor_status() == vendor_status),
    {
        if image_index > 0x0F {
            return Err(OcpError::RecoveryStatusImageIndexOutOfRange);
        }
        let mut byte0 = RecoveryStatusByte0(0);
        let code = status.to_byte();
        byte0.set_status(code);
        let ghost b1 = byte0.0;
        byte0.set_image_index(image_index);
        proof {
            lemma_nibbles(0, code);
            lemma_nibbles(b1, image_index);
            lemma_recovery_status_code_round_trip(status, code);
        }
        Ok(Self { byte0, vendor_status })
    }

    /// Byte 0, bits 0-3: Device recovery status.
    pub fn status(&self) -> (r: DeviceRecoveryStatus)
        ensures
            r == self.spec_status(),
    {
        proof {
            use_type_invariant(self);
        }
        match DeviceRecoveryStatus::try_from(self.byte0.status()) {
            Ok(s) => s,
            Err(_) => {
                proof {
                    assert(false);
                }
                DeviceRecoveryStatus::NotInRecovery
            },
        }
    }

    /// Byte 0, bits 4-7: Recovery image index (0-15).
    pub fn image_index(&self) -> (r: u8)
        ensures
            r == self.spec_image_index(),
    {
        self.byte0.image_index()
    }

    /// Byte 1: vendor specific status.
    pub fn vendor_status(&self) -> (r: u8)
        ensures
            r == self.spec_vendor_status(),
    {
        self.vendor_status
    }

    /// Serialize into the 2-byte wire representation.
    pub fn to_message(self) -> (r: [u8; MESSAGE_LEN])
        ensures
            r@ == self.spec_message(),
    {
        proof {
            use_type_invariant(&self);
            lemma_nibbles(self.byte0.0, 0);
            lemma_recovery_status_code_round_trip(self.spec_status(), low_nibble(self.byte0.0));
        }
        let r = [self.byte0.0, self.vendor_status];
        assert(r@ =~= self.spec_message());
        r
    }
}

} // verus!
