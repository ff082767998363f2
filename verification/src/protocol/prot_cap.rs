//! PROT_CAP (cmd=0x22) response structure.
//!
//! The response is a fixed 15-byte read-only structure describing the
//! Device's recovery protocol version, capabilities, and timing parameters.

use vstd::prelude::*;

use crate::bits::{bit_of_u16, get_bit_u16, le_bytes_u16, put_bit_u16, u16_to_le, with_bit_u16};
use crate::error::OcpError;

verus! {

/// Expected magic string in bytes 0-7: "OCP RECV" in ASCII.
pub const MAGIC: [u8; 8] = [0x4F, 0x43, 0x50, 0x20, 0x52, 0x45, 0x43, 0x56];

/// Wire size of a PROT_CAP response in bytes.
pub const RESPONSE_LEN: usize = 15;

/// The magic string as a sequence.
pub open spec fn spec_magic() -> Seq<u8> {
    seq![0x4Fu8, 0x43u8, 0x50u8, 0x20u8, 0x52u8, 0x45u8, 0x43u8, 0x56u8]
}

/// Recovery protocol capabilities (bytes 10-11 of PROT_CAP response).
///
/// Mandatory capabilities of the protocol: identification (bit 0),
/// device_status (bit 4), and at least one of local_c_image_support (bit 6)
/// or push_c_image_support (bit 7). If push_c_image_support is set, a path
/// to the CMS (recovery_memory_access, bit 5, or fifo_cms_support, bit 12)
/// must be set too.
#[derive(Debug, Clone, Copy, PartialEq, Eq, Structural)]
pub struct RecoveryProtocolCapabilities(pub u16);

impl RecoveryProtocolCapabilities {
    /// Bit 0: the Device supports DEVICE_ID.
    pub fn identification(&self) -> (r: bool)
        ensures
            r == bit_of_u16(self.0, 0),
    {
        get_bit_u16(self.0, 0)
    }

    /// Sets bit 0.
    pub fn set_identification(&mut self, value: bool)
        ensures
            final(self).0 == with_bit_u16(old(self).0, 0, value),
    {
        self.0 = put_bit_u16(self.0, 0, value);
    }

    /// Bit 1: forced recovery through DEVICE_RESET.
    pub fn forced_recovery(&self) -> (r: bool)
        ensures
            r == bit_of_u16(self.0, 1),
    {
        get_bit_u16(self.0, 1)
    }

    /// Sets bit 1.
    pub fn set_forced_recovery(&mut self, value: bool)
        ensures
            final(self).0 == with_bit_u16(old(self).0, 1, value),
    {
        self.0 = put_bit_u16(self.0, 1, value);
    }

    /// Bit 2: management-only reset.
    pub fn mgmt_reset(&self) -> (r: bool)
        ensures
            r == bit_of_u16(self.0, 2),
    {
        get_bit_u16(self.0, 2)
    }

    /// Sets bit 2.
    pub fn set_mgmt_reset(&mut self, value: bool)
        ensures
            final(self).0 == with_bit_u16(old(self).0, 2, value),
    {
        self.0 = put_bit_u16(self.0, 2, value);
    }

    /// Bit 3: device reset.
    pub fn device_reset(&self) -> (r: bool)
        ensures
            r == bit_of_u16(self.0, 3),
    {
        get_bit_u16(self.0, 3)
    }

    /// Sets bit 3.
    pub fn set_device_reset(&mut self, value: bool)
        ensures
            final(self).0 == with_bit_u16(old(self).0, 3, value),
    {
        self.0 = put_bit_u16(self.0, 3, value);
    }

    /// Bit 4: the Device supports DEVICE_STATUS.
    pub fn device_status(&self) -> (r: bool)
        ensures
            r == bit_of_u16(self.0, 4),
    {
        get_bit_u16(self.0, 4)
    }

    /// Sets bit 4.
    pub fn set_device_status(&mut self, value: bool)
        ensures
            final(self).0 == with_bit_u16(old(self).0, 4, value),
    {
        self.0 = put_bit_u16(self.0, 4, value);
    }

    /// Bit 5: memory-window (INDIRECT_*) access to the CMS.
    pub fn recovery_memory_access(&self) -> (r: bool)
        ensures
            r == bit_of_u16(self.0, 5),
    {
        get_bit_u16(self.0, 5)
    }

    /// Sets bit 5.
    pub fn set_recovery_memory_access(&mut self, value: bool)
        ensures
            final(self).0 == with_bit_u16(old(self).0, 5, value),
    {
        self.0 = put_bit_u16(self.0, 5, value);
    }

    /// Bit 6: recovery from a locally stored C-image.
    pub fn local_c_image_support(&self) -> (r: bool)
        ensures
            r == bit_of_u16(self.0, 6),
    {
        get_bit_u16(self.0, 6)
    }

    /// Sets bit 6.
    pub fn set_local_c_image_support(&mut self, value: bool)
        ensures
            final(self).0 == with_bit_u16(old(self).0, 6, value),
    {
        self.0 = put_bit_u16(self.0, 6, value);
    }

    /// Bit 7: recovery from a pushed C-image.
    pub fn push_c_image_support(&self) -> (r: bool)
        ensures
            r == bit_of_u16(self.0, 7),
    {
        get_bit_u16(self.0, 7)
    }

    /// Sets bit 7.
    pub fn set_push_c_image_support(&mut self, value: bool)
        ensures
            final(self).0 == with_bit_u16(old(self).0, 7, value),
    {
        self.0 = put_bit_u16(self.0, 7, value);
    }

    /// Bit 8: interface isolation.
    pub fn interface_isolation(&self) -> (r: bool)
        ensures
            r == bit_of_u16(self.0, 8),
    {
        get_bit_u16(self.0, 8)
    }

    /// Sets bit 8.
    pub fn set_interface_isolation(&mut self, value: bool)
        ensures
            final(self).0 == with_bit_u16(old(self).0, 8, value),
    {
        self.0 = put_bit_u16(self.0, 8, value);
    }

    /// Bit 9: the Device supports HW_STATUS.
    pub fn hardware_status(&self) -> (r: bool)
        ensures
            r == bit_of_u16(self.0, 9),
    {
        get_bit_u16(self.0, 9)
    }

    /// Sets bit 9.
    pub fn set_hardware_status(&mut self, value: bool)
        ensures
            final(self).0 == with_bit_u16(old(self).0, 9, value),
    {
        self.0 = put_bit_u16(self.0, 9, value);
    }

    /// Bit 10: the Device supports the VENDOR command.
    pub fn vendor_command(&self) -> (r: bool)
        ensures
            r == bit_of_u16(self.0, 10),
    {
        get_bit_u16(self.0, 10)
    }

    /// Sets bit 10.
    pub fn set_vendor_command(&mut self, value: bool)
        ensures
            final(self).0 == with_bit_u16(old(self).0, 10, value),
    {
        self.0 = put_bit_u16(self.0, 10, value);
    }

    /// Bit 11: flashless boot.
    pub fn flashless_boot(&self) -> (r: bool)
        ensures
            r == bit_of_u16(self.0, 11),
    {
        get_bit_u16(self.0, 11)
    }

    /// Sets bit 11.
    pub fn set_flashless_boot(&mut self, value: bool)
        ensures
            final(self).0 == with_bit_u16(old(self).0, 11, value),
    {
        self.0 = put_bit_u16(self.0, 11, value);
    }

    /// Bit 12: FIFO (INDIRECT_FIFO_*) access to the CMS.
    pub fn fifo_cms_support(&self) -> (r: bool)
        ensures
            r == bit_of_u16(self.0, 12),
    {
        get_bit_u16(self.0, 12)
    }

    /// Sets bit 12.
    pub fn set_fifo_cms_support(&mut self, value: bool)
        ensures
            final(self).0 == with_bit_u16(old(self).0, 12, value),
    {
        self.0 = put_bit_u16(self.0, 12, value);
    }
}

/// `1 << n` when `b` holds, else 0.
pub open spec fn cap_bit(b: bool, n: u16) -> u16 {
    if b {
        1u16 << n
    } else {
        0u16
    }
}

/// The capabilities word with bit `n` equal to `bn` for n in 0-12 and
/// bits 13-15 clear.
pub open spec fn pack_capabilities(
    b0: bool,
    b1: bool,
    b2: bool,
    b3: bool,
    b4: bool,
    b5: bool,
    b6: bool,
    b7: bool,
    b8: bool,
    b9: bool,
    b10: bool,
    b11: bool,
    b12: bool,
) -> u16 {
    cap_bit(b0, 0) | cap_bit(b1, 1) | cap_bit(b2, 2) | cap_bit(b3, 3) | cap_bit(b4, 4) | cap_bit(
        b5,
        5,
    ) | cap_bit(b6, 6) | cap_bit(b7, 7) | cap_bit(b8, 8) | cap_bit(b9, 9) | cap_bit(b10, 10)
        | cap_bit(b11, 11) | cap_bit(b12, 12)
}

/// Each bit of a packed capabilities word is the flag it was packed from.
pub proof fn lemma_pack_capabilities_bits(
    b0: bool,
    b1: bool,
    b2: bool,
    b3: bool,
    b4: bool,
    b5: bool,
    b6: bool,
    b7: bool,
    b8: bool,
    b9: bool,
    b10: bool,
    b11: bool,
    b12: bool,
)
    ensures
        ({
            let w = pack_capabilities(b0, b1, b2, b3, b4, b5, b6, b7, b8, b9, b10, b11, b12);
            &&& bit_of_u16(w, 0) == b0
            &&& bit_of_u16(w, 1) == b1
            &&& bit_of_u16(w, 2) == b2
            &&& bit_of_u16(w, 3) == b3
            &&& bit_of_u16(w, 4) == b4
            &&& bit_of_u16(w, 5) == b5
            &&& bit_of_u16(w, 6) == b6
            &&& bit_of_u16(w, 7) == b7
            &&& bit_of_u16(w, 8) == b8
            &&& bit_of_u16(w, 9) == b9
            &&& bit_of_u16(w, 10) == b10
            &&& bit_of_u16(w, 11) == b11
            &&& bit_of_u16(w, 12) == b12
            &&& !bit_of_u16(w, 13)
            &&& !bit_of_u16(w, 14)
            &&& !bit_of_u16(w, 15)
        }),
{
    let w = pack_capabilities(b0, b1, b2, b3, b4, b5, b6, b7, b8, b9, b10, b11, b12);
    assert({
        &&& bit_of_u16(w, 0) == b0
        &&& bit_of_u16(w, 1) == b1
        &&& bit_of_u16(w, 2) == b2
        &&& bit_of_u16(w, 3) == b3
        &&& bit_of_u16(w, 4) == b4
        &&& bit_of_u16(w, 5) == b5
        &&& bit_of_u16(w, 6) == b6
        &&& bit_of_u16(w, 7) == b7
        &&& bit_of_u16(w, 8) == b8
        &&& bit_of_u16(w, 9) == b9
        &&& bit_of_u16(w, 10) == b10
        &&& bit_of_u16(w, 11) == b11
        &&& bit_of_u16(w, 12) == b12
        &&& !bit_of_u16(w, 13)
        &&& !bit_of_u16(w, 14)
        &&& !bit_of_u16(w, 15)
    }) by (bit_vector)
        requires
            w == pack_capabilities(b0, b1, b2, b3, b4, b5, b6, b7, b8, b9, b10, b11, b12),
    ;
}

/// The mandatory-capability check on a capabilities word, with this
/// library's reading of the push rule: pushing a C-image needs a memory window or a
/// FIFO, and the first broken rule in the order below is reported.
pub open spec fn spec_validate(caps: u16) -> Result<(), OcpError> {
    if !bit_of_u16(caps, 0) {
        Err(OcpError::ProtCapIdentificationRequired)
    } else if !bit_of_u16(caps, 4) {
        Err(OcpError::ProtCapDeviceStatusRequired)
    } else if !bit_of_u16(caps, 6) && !bit_of_u16(caps, 7) {
        Err(OcpError::ProtCapCImageSupportRequired)
    } else if bit_of_u16(caps, 7) && !bit_of_u16(caps, 5) && !bit_of_u16(caps, 12) {
        Err(OcpError::ProtCapRecoveryMemoryAccessRequired)
    } else {
        Ok(())
    }
}

/// PROT_CAP response (15 bytes on the wire).
#[derive(Debug, Clone, Copy, PartialEq, Eq)]
pub struct ProtCap {
    /// Bytes 0-7: MUST be "OCP RECV" (see [`MAGIC`]).
    magic: [u8; 8],
    /// Byte 8: Protocol major version.
    pub major_version: u8,
    /// Byte 9: Protocol minor version.
    pub minor_version: u8,
    /// Bytes 10-11: Agent capabilities bitfield.
    pub capabilities: RecoveryProtocolCapabilities,
    /// Byte 12: Total number of CMS regions the Device supports (0-255).
    pub cms_regions: u8,
    /// Byte 13: Maximum response time as 2^x microseconds.
    pub max_response_time: u8,
    /// Byte 14: Heartbeat period as 2^x microseconds. 0 = not supported.
    pub heartbeat_period: u8,
}

impl ProtCap {
    /// Bytes 0-7 held.
    pub closed spec fn spec_magic_bytes(self) -> Seq<u8> {
        self.magic@
    }

    /// Byte 8 held.
    pub closed spec fn spec_major_version(self) -> u8 {
        self.major_version
    }

    /// Byte 9 held.
    pub closed spec fn spec_minor_version(self) -> u8 {
        self.minor_version
    }

    /// Bytes 10-11 held.
    pub closed spec fn spec_capabilities(self) -> u16 {
        self.capabilities.0
    }

    /// Byte 12 held.
    pub closed spec fn spec_cms_regions(self) -> u8 {
        self.cms_regions
    }

    /// Byte 13 held.
    pub closed spec fn spec_max_response_time(self) -> u8 {
        self.max_response_time
    }

    /// Byte 14 held.
    pub closed spec fn spec_heartbeat_period(self) -> u8 {
        self.heartbeat_period
    }

    /// The fifteen bytes on the wire.
    pub open spec fn spec_message(self) -> Seq<u8> {
        self.spec_magic_bytes() + seq![self.spec_major_version(), self.spec_minor_version()]
            + le_bytes_u16(self.spec_capabilities()) + seq![
            self.spec_cms_regions(),
            self.spec_max_response_time(),
            self.spec_heartbeat_period(),
        ]
    }

    pub fn new(
        major_version: u8,
        minor_version: u8,
        capabilities: RecoveryProtocolCapabilities,
        cms_regions: u8,
        max_response_time: u8,
        heartbeat_period: u8,
    ) -> (r: Self)
        ensures
            r.spec_magic_bytes() == spec_magic(),
            r.spec_major_version() == major_version,
            r.spec_minor_version() == minor_version,
            r.spec_capabilities() == capabilities.0,
            r.spec_cms_regions() == cms_regions,
            r.spec_max_response_time() == max_response_time,
            r.spec_heartbeat_period() == heartbeat_period,
    {
        let r = Self {
            magic: MAGIC,
            major_version,
            minor_version,
            capabilities,
            cms_regions,
            max_response_time,
            heartbeat_period,
        };
        assert(r.magic@ =~= spec_magic());
        r
    }

    /// Validate the mandatory capability rules.
    pub fn validate_capabilities(&self) -> (r: Result<(), OcpError>)
        ensures
            r == spec_validate(self.spec_capabilities()),
    {
        let caps = &self.capabilities;

        if !caps.identification() {
            return Err(OcpError::ProtCapIdentificationRequired);
        }
        if !caps.device_status() {
            return Err(OcpError::ProtCapDeviceStatusRequired);
        }
        if !caps.local_c_image_support() && !caps.push_c_image_support() {
            return Err(OcpError::ProtCapCImageSupportRequired);
        }
        // Protocol 1.1 asks for recovery_memory_access when push_c_image_support
        // is set, but FIFO-based push is equally valid: push_c_image_support
        // is accepted when either recovery_memory_access or fifo_cms_support
        // is set.
        if caps.push_c_image_support() && !caps.recovery_memory_access()
            && !caps.fifo_cms_support() {
            return Err(OcpError::ProtCapRecoveryMemoryAccessRequired);
        }
        Ok(())
    }

    /// Serialize into the 15-byte wire representation.
    ///
    /// Returns an error exactly when the mandatory capability rules are not
    /// satisfied.
    pub fn to_message(self) -> (r: Result<[u8; RESPONSE_LEN], OcpError>)
        ensures
            spec_validate(self.spec_capabilities()) matches Err(e) ==> r == Err::<
                [u8; RESPONSE_LEN],
                OcpError,
            >(e),
            spec_validate(self.spec_capabilities()) is Ok ==> (r matches Ok(m) && m@
                == self.spec_message()),
    {
        match self.validate_capabilities() {
            Err(e) => return Err(e),
            Ok(()) => {},
        }
        let caps = u16_to_le(self.capabilities.0);
        let r = [
            self.magic[0],
            self.magic[1],
            self.magic[2],
            self.magic[3],
            self.magic[4],
            self.magic[5],
            self.magic[6],
            self.magic[7],
            self.major_version,
            self.minor_version,
            caps[0],
            caps[1],
            self.cms_regions,
            self.max_response_time,
            self.heartbeat_period,
        ];
        assert(r@ =~= self.spec_message());
        Ok(r)
    }
}

} // verus!
