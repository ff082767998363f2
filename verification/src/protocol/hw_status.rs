//! HW_STATUS (cmd=0x28) response structure.
//!
//! A variable-length RO command (4-255 bytes) reporting hardware status,
//! composite temperature, and optional vendor-specific hardware status.
//! This command is optional (scope R -- recovery interface must be active).

use core::convert::TryFrom;
use vstd::prelude::*;

use crate::bits::{bit_of_u8, copy_at, get_bit_u8, put_bit_u8, spliced, with_bit_u8};
use crate::error::OcpError;

verus! {

/// Minimum wire size of an HW_STATUS message (no vendor-specific status).
pub const MIN_MESSAGE_LEN: usize = 4;

/// Maximum wire size of an HW_STATUS message (full vendor-specific status).
pub const MAX_MESSAGE_LEN: usize = 255;

/// Maximum length of the vendor-specific HW status payload in bytes.
pub const MAX_VENDOR_SPECIFIC_STATUS_LEN: usize = 251;

/// Minimum valid composite temperature in degrees Celsius.
pub const MIN_COMPOSITE_TEMP_CELSIUS: i8 = -60;

/// Byte 0 of HW_STATUS — hardware status flags (active high).
#[derive(Debug, Clone, Copy, PartialEq, Eq, Structural)]
pub struct HwStatusFlags(pub u8);

impl HwStatusFlags {
    /// Bit 0: Device temperature is critical (may need reset to clear).
    pub fn temp_critical(&self) -> (r: bool)
        ensures
            r == bit_of_u8(self.0, 0),
    {
        get_bit_u8(self.0, 0)
    }

    /// Sets bit 0.
    pub fn set_temp_critical(&mut self, value: bool)
        ensures
            final(self).0 == with_bit_u8(old(self).0, 0, value),
    {
        self.0 = put_bit_u8(self.0, 0, value);
    }

    /// Bit 1: Hardware soft error (may need reset to clear).
    pub fn hw_soft_error(&self) -> (r: bool)
        ensures
            r == bit_of_u8(self.0, 1),
    {
        get_bit_u8(self.0, 1)
    }

    /// Sets bit 1.
    pub fn set_hw_soft_error(&mut self, value: bool)
        ensures
            final(self).0 == with_bit_u8(old(self).0, 1, value),
    {
        self.0 = put_bit_u8(self.0, 1, value);
    }

    /// Bit 2: Hardware fatal error.
    pub fn hw_fatal_error(&self) -> (r: bool)
        ensures
            r == bit_of_u8(self.0, 2),
    {
        get_bit_u8(self.0, 2)
    }

    /// Sets bit 2.
    pub fn set_hw_fatal_error(&mut self, value: bool)
        ensures
            final(self).0 == with_bit_u8(old(self).0, 2, value),
    {
        self.0 = put_bit_u8(self.0, 2, value);
    }
}

/// Byte 2: Composite temperature (CTemp).
///
/// Compatible with NVMe-MI command code 0 offset 3.
#[derive(Debug, Clone, Copy, PartialEq, Eq, Structural)]
pub enum CompositeTemperature {
    /// Temperature in degrees Celsius (-60 to 127).
    /// 127 means 127°C or higher (clamped).
    /// -60 means -60°C or lower (clamped).
    Celsius(i8),
    /// No temperature data, or data is older than 5 seconds.
    NoData,
    /// Temperature sensor failure.
    SensorFailure,
}

impl CompositeTemperature {
    /// The byte on the wire: a temperature in two's complement, 0x80 for no
    /// data, 0x81 for a sensor failure.
    pub open spec fn spec_byte(self) -> u8 {
        match self {
            CompositeTemperature::Celsius(v) => if v >= 0 {
                v as u8
            } else {
                (v + 256) as u8
            },
            CompositeTemperature::NoData => 0x80,
            CompositeTemperature::SensorFailure => 0x81,
        }
    }

    /// Decoding of a byte: 0x00-0x7F and 0xC4-0xFF are temperatures in two's
    /// complement, 0x80 and 0x81 the two markers, and 0x82-0xC3 reserved.
    pub open spec fn spec_from_byte(value: u8) -> Result<Self, OcpError> {
        if value <= 0x7F {
            Ok(CompositeTemperature::Celsius(value as i8))
        } else if value == 0x80 {
            Ok(CompositeTemperature::NoData)
        } else if value == 0x81 {
            Ok(CompositeTemperature::SensorFailure)
        } else if value >= 0xC4 {
            Ok(CompositeTemperature::Celsius((value - 256) as i8))
        } else {
            Err(OcpError::HwStatusInvalidCompositeTemp)
        }
    }

    /// Whether the value may be reported: temperatures below -60 °C are not.
    pub open spec fn spec_valid(self) -> bool {
        self matches CompositeTemperature::Celsius(v) ==> v >= MIN_COMPOSITE_TEMP_CELSIUS
    }

    /// Convert to the single-byte wire representation.
    pub fn to_byte(self) -> (r: u8)
        ensures
            r == self.spec_byte(),
    {
        match self {
            Self::Celsius(v) => {
                assert((v as u8) as int == if v >= 0 { v as int } else { v + 256 })
                    by (bit_vector);
                v as u8
            },
            Self::NoData => 0x80,
            Self::SensorFailure => 0x81,
        }
    }
}

impl vstd::std_specs::convert::TryFromSpecImpl<u8> for CompositeTemperature {
    open spec fn obeys_try_from_spec() -> bool {
        true
    }

    open spec fn try_from_spec(v: u8) -> Result<Self, OcpError> {
        Self::spec_from_byte(v)
    }
}

impl TryFrom<u8> for CompositeTemperature {
    type Error = OcpError;

    fn try_from(value: u8) -> (r: Result<Self, OcpError>)
        ensures
            r == Self::spec_from_byte(value),
    {
        assert((value as i8) as int == if value <= 0x7F { value as int } else { value - 256 })
            by (bit_vector);
        match value {
            0x00..=0x7F => Ok(Self::Celsius(value as i8)),
            0x80 => Ok(Self::NoData),
            0x81 => Ok(Self::SensorFailure),
            0xC4..=0xFF => Ok(Self::Celsius(value as i8)),
            0x82..=0xC3 => Err(OcpError::HwStatusInvalidCompositeTemp),
        }
    }
}

/// Every reportable temperature value decodes from its own byte, and a byte
/// that decodes is the byte of what it decodes to.
pub proof fn lemma_composite_temperature_round_trip(t: CompositeTemperature, b: u8)
    ensures
        t.spec_valid() ==> CompositeTemperature::spec_from_byte(t.spec_byte()) == Ok::<
            CompositeTemperature,
            OcpError,
        >(t),
        CompositeTemperature::spec_from_byte(b) matches Ok(u) ==> u.spec_valid() && u.spec_byte()
            == b,
{
}

/// HW_STATUS response (4-255 bytes on the wire).
///
/// | Byte  | Field                        |
/// |-------|------------------------------|
/// | 0     | HW Status flags              |
/// | 1     | Vendor HW Status             |
/// | 2     | Composite Temperature        |
/// | 3     | Vendor Specific Status Length |
/// | 4-254 | Vendor Specific HW Status    |
#[derive(Debug, Clone, Copy, PartialEq, Eq)]
pub struct HwStatus<'a> {
    hw_status: HwStatusFlags,
    vendor_hw_status: u8,
    composite_temp: CompositeTemperature,
    vendor_specific_status: &'a [u8],
}

impl<'a> HwStatus<'a> {
    /// Every value has a reportable temperature and a vendor payload of at
    /// most 251 bytes.
    #[verifier::type_invariant]
    spec fn inv(self) -> bool {
        &&& self.vendor_specific_status@.len() <= MAX_VENDOR_SPECIFIC_STATUS_LEN
        &&& self.composite_temp.spec_valid()
    }

    /// Byte 0 held.
    pub closed spec fn spec_flags(self) -> HwStatusFlags {
        self.hw_status
    }

    /// Byte 1 held.
    pub closed spec fn spec_vendor_hw_status(self) -> u8 {
        self.vendor_hw_status
    }

    /// The composite temperature held.
    pub closed spec fn spec_composite_temp(self) -> CompositeTemperature {
        self.composite_temp
    }

    /// The vendor-specific payload held.
    pub closed spec fn spec_vendor_specific_status(self) -> Seq<u8> {
        self.vendor_specific_status@
    }

    /// The logical bytes of the message: the four header bytes followed by
    /// the vendor-specific payload.
    pub open spec fn spec_message(self) -> Seq<u8> {
        seq![
            self.spec_flags().0,
            self.spec_vendor_hw_status(),
            self.spec_composite_temp().spec_byte(),
            self.spec_vendor_specific_status().len() as u8,
        ] + self.spec_vendor_specific_status()
    }

    /// Create a new HW_STATUS response.
    ///
    /// Returns an error if:
    /// - `vendor_specific_status` exceeds 251 bytes
    /// - `composite_temp` is `Celsius(v)` with `v < -60`
    /// The length is checked first.
    pub fn new(
        hw_status: HwStatusFlags,
        vendor_hw_status: u8,
        composite_temp: CompositeTemperature,
        vendor_specific_status: &'a [u8],
    ) -> (r: Result<Self, OcpError>)
        ensures
            vendor_specific_status@.len() > MAX_VENDOR_SPECIFIC_STATUS_LEN ==> r == Err::<
                Self,
                OcpError,
            >(OcpError::HwStatusVendorStatusTooLong),
            vendor_specific_status@.len() <= MAX_VENDOR_SPECIFIC_STATUS_LEN
                && !composite_temp.spec_valid() ==> r == Err::<Self, OcpError>(
                OcpError::HwStatusInvalidCompositeTemp,
            ),
            vendor_specific_status@.len() <= MAX_VENDOR_SPECIFIC_STATUS_LEN
                && composite_temp.spec_valid() ==> (r matches Ok(s) && s.spec_flags() == hw_status
                && s.spec_vendor_hw_status() == vendor_hw_status && s.spec_composite_temp()
                == composite_temp && s.spec_vendor_specific_status() == vendor_specific_status@),
    {
        if vendor_specific_status.len() > MAX_VENDOR_SPECIFIC_STATUS_LEN {
            return Err(OcpError::HwStatusVendorStatusTooLong);
        }
        if let CompositeTemperature::Celsius(v) = composite_temp {
            if v < MIN_COMPOSITE_TEMP_CELSIUS {
                return Err(OcpError::HwStatusInvalidCompositeTemp);
            }
        }
        Ok(Self { hw_status, vendor_hw_status, composite_temp, vendor_specific_status })
    }

    /// Bit 0: Device temperature is critical.
    pub fn temp_critical(&self) -> (r: bool)
        ensures
            r == bit_of_u8(self.spec_flags().0, 0),
    {
        self.hw_status.temp_critical()
    }

    /// Bit 1: Hardware soft error.
    pub fn hw_soft_error(&self) -> (r: bool)
        ensures
            r == bit_of_u8(self.spec_flags().0, 1),
    {
        self.hw_status.hw_soft_error()
    }

    /// Bit 2: Hardware fatal error.
    pub fn hw_fatal_error(&self) -> (r: bool)
        ensures
            r == bit_of_u8(self.spec_flags().0, 2),
    {
        self.hw_status.hw_fatal_error()
    }

    /// Byte 1: Vendor HW status (vendor-specific bitmask).
    pub fn vendor_hw_status(&self) -> (r: u8)
        ensures
            r == self.spec_vendor_hw_status(),
    {
        self.vendor_hw_status
    }

    /// Byte 2: Composite temperature.
    pub fn composite_temp(&self) -> (r: CompositeTemperature)
        ensures
            r == self.spec_composite_temp(),
    {
        self.composite_temp
    }

    /// Bytes 4-254: Vendor-specific HW status payload (may be empty).
    pub fn vendor_specific_status(&self) -> (r: &[u8])
        ensures
            r@ == self.spec_vendor_specific_status(),
    {
        self.vendor_specific_status
    }

    /// Logical length of the serialized message.
    pub fn message_len(&self) -> (r: usize)
        ensures
            r == MIN_MESSAGE_LEN + self.spec_vendor_specific_status().len(),
            r <= MAX_MESSAGE_LEN,
    {
        proof {
            use_type_invariant(self);
        }
        MIN_MESSAGE_LEN + self.vendor_specific_status.len()
    }

    /// Serialize into the wire representation.
    ///
    /// Returns `(buffer, logical_length)` where `buffer` is a full-size
    /// array and `logical_length` indicates how many bytes are valid
    /// (4 + vendor-specific status length). Bytes beyond `logical_length`
    /// are zero.
    pub fn to_message(self) -> (r: ([u8; MAX_MESSAGE_LEN], usize))
        ensures
            r.1 == self.spec_message().len(),
            r.0@ == self.spec_message() + Seq::new(
                (MAX_MESSAGE_LEN - self.spec_message().len()) as nat,
                |i: int| 0u8,
            ),
    {
        proof {
            use_type_invariant(&self);
        }
        let mut buf = [0u8; MAX_MESSAGE_LEN];
        let ghost zeros = buf@;
        buf[0] = self.hw_status.0;
        buf[1] = self.vendor_hw_status;
        buf[2] = self.composite_temp.to_byte();
        buf[3] = self.vendor_specific_status.len() as u8;
        let ghost head = buf@;
        let len = self.message_len();
        copy_at(&mut buf, MIN_MESSAGE_LEN, self.vendor_specific_status);
        assert(buf@ =~= self.spec_message() + Seq::new(
            (MAX_MESSAGE_LEN - self.spec_message().len()) as nat,
            |i: int| 0u8,
        ));
        (buf, len)
    }
}

} // verus!
