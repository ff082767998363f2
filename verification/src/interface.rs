//! OCP Recovery Interface state machine.
//!
//! This module defines the `RecoveryStateMachine` that implements the OCP
//! Secure Firmware Recovery v1.1 command processing, along with the
//! `RecoveryDeviceConfig` and `RecoveryAction` types used by integrators.

use vstd::prelude::*;

use crate::bits::{bit_of_u16, bit_of_u8, le_bytes_u16, with_bit_u16};
use crate::cms::slice_fifo::SliceFifoRegion;
use crate::cms::slice_indirect::SliceIndirectRegion;
use crate::error::OcpError;
use crate::protocol::device_id::{zeros, DeviceId, MAX_MESSAGE_LEN as DEVICE_ID_MAX_MESSAGE_LEN};
use crate::protocol::device_reset::{
    DeviceReset, ForcedRecoveryMode, InterfaceControl, ResetControl,
};
use crate::protocol::device_status::{
    device_status_bytes, DeviceStatus, DeviceStatusValue, ProtocolError, RecoveryReasonCode,
    MAX_HEARTBEAT, MAX_MESSAGE_LEN as DEVICE_STATUS_MAX_MESSAGE_LEN, MAX_VENDOR_STATUS_LEN,
};
use crate::protocol::hw_status::{HwStatus, MAX_MESSAGE_LEN as HW_STATUS_MAX_MESSAGE_LEN};
use crate::protocol::indirect_ctrl::IndirectCtrl;
use crate::protocol::indirect_fifo_ctrl::IndirectFifoCtrl;
use crate::protocol::indirect_status::{
    CmsRegionType, IndirectStatus, StatusFlags, MESSAGE_LEN as INDIRECT_STATUS_MESSAGE_LEN,
};
use crate::protocol::prot_cap::{
    lemma_pack_capabilities_bits, pack_capabilities, spec_magic, spec_validate, ProtCap,
    RecoveryProtocolCapabilities, RESPONSE_LEN,
};
use crate::protocol::recovery_ctrl::{ActivateRecoveryImage, ImageSelection, RecoveryCtrl};
use crate::protocol::recovery_status::{
    DeviceRecoveryStatus, RecoveryStatus, MESSAGE_LEN as RECOVERY_STATUS_MESSAGE_LEN,
};
use crate::transport::{Timeout, Transport};
use crate::vendor::{VendorCapabilities, VendorHandler};

verus! {

/// Static device configuration provided at state machine construction time.
///
/// These fields are immutable for the lifetime of the state machine and are
/// used to populate PROT_CAP and DEVICE_ID responses.
pub struct RecoveryDeviceConfig<'a> {
    /// DEVICE_ID response payload.
    pub device_id: DeviceId<'a>,
    /// PROT_CAP major version (byte 8).
    pub major_version: u8,
    /// PROT_CAP minor version (byte 9).
    pub minor_version: u8,
    /// PROT_CAP max response time exponent (byte 13).
    /// Actual time = 2^max_response_time microseconds.
    pub max_response_time: u8,
    /// PROT_CAP heartbeat period exponent (byte 14).
    /// 0 means heartbeat is not supported.
    pub heartbeat_period: u8,
    /// Whether the device supports local c-image recovery (PROT_CAP bit 6).
    pub local_c_image_support: bool,
}

/// Actions the integrator must handle after `process_command` returns.
#[derive(Debug, Clone, Copy, PartialEq, Eq, Structural)]
pub enum RecoveryAction {
    /// No integrator action required. The command was fully handled.
    NoAction,
    /// The integrator should activate the recovery image, then call
    /// `complete_activation()` to report the result.
    ActivateRecoveryImage,
    /// The integrator should perform a device reset.
    DeviceReset,
    /// The integrator should perform a management-only reset.
    ManagementReset,
}

/// The CMS indices of the memory-window regions followed by those of the
/// FIFO regions.
pub open spec fn cms_indices(
    indirect: Seq<(u8, SliceIndirectRegion)>,
    fifo: Seq<(u8, SliceFifoRegion)>,
) -> Seq<u8> {
    Seq::new(
        indirect.len() + fifo.len(),
        |k: int|
            if k < indirect.len() {
                indirect[k].0
            } else {
                fifo[k - indirect.len()].0
            },
    )
}

/// No value occurs twice in `s`.
pub open spec fn all_distinct(s: Seq<u8>) -> bool {
    forall|i: int, j: int| 0 <= i < j < s.len() ==> s[i] != s[j]
}

/// Some memory-window region has index 0 and is a code region.
pub open spec fn has_code_cms0(indirect: Seq<(u8, SliceIndirectRegion)>) -> bool {
    exists|i: int|
        0 <= i < indirect.len() && #[trigger] indirect[i].0 == 0
            && indirect[i].1.spec_region_type() == CmsRegionType::CodeSpace
}

/// Every region is well formed.
pub open spec fn regions_wf(
    indirect: Seq<(u8, SliceIndirectRegion)>,
    fifo: Seq<(u8, SliceFifoRegion)>,
) -> bool {
    &&& forall|i: int| 0 <= i < indirect.len() ==> (#[trigger] indirect[i]).1.wf()
    &&& forall|i: int| 0 <= i < fifo.len() ==> (#[trigger] fifo[i]).1.wf()
}

/// The reason `new` refuses a region topology, if it does: CMS 0 must be a
/// code region whenever memory-window regions exist, no index may occur
/// twice, and there may be at most 255 regions.
pub open spec fn topology_error(
    indirect: Seq<(u8, SliceIndirectRegion)>,
    fifo: Seq<(u8, SliceFifoRegion)>,
) -> Option<OcpError> {
    if indirect.len() > 0 && !has_code_cms0(indirect) {
        Some(OcpError::IndirectCms0NotCodeSpace)
    } else if !all_distinct(cms_indices(indirect, fifo)) {
        Some(OcpError::DuplicateCmsIndex)
    } else if indirect.len() + fifo.len() > 255 {
        Some(OcpError::InvalidCmdBufferCount)
    } else {
        None
    }
}

/// The eight INDIRECT_STATUS bytes reported for a memory-window region.
pub open spec fn region_status_message(r: SliceIndirectRegion) -> Seq<u8> {
    seq![r.spec_flags().0, r.spec_region_type().spec_code(), 0u8, 0u8] + crate::bits::le_bytes_u32(
        (r.spec_data().len() / 4) as u32,
    )
}

/// The INDIRECT_STATUS bytes reported when no memory-window region is
/// selected: an unsupported region of size 0 with no flags.
pub open spec fn unsupported_status_message() -> Seq<u8> {
    seq![0u8, CmsRegionType::Unsupported.spec_code(), 0u8, 0u8] + crate::bits::le_bytes_u32(0)
}

/// PROT_CAP command code.
pub const CMD_PROT_CAP: u8 = 0x22;
/// DEVICE_ID command code.
pub const CMD_DEVICE_ID: u8 = 0x23;
/// DEVICE_STATUS command code.
pub const CMD_DEVICE_STATUS: u8 = 0x24;
/// DEVICE_RESET command code.
pub const CMD_DEVICE_RESET: u8 = 0x25;
/// RECOVERY_CTRL command code.
pub const CMD_RECOVERY_CTRL: u8 = 0x26;
/// RECOVERY_STATUS command code.
pub const CMD_RECOVERY_STATUS: u8 = 0x27;
/// HW_STATUS command code.
pub const CMD_HW_STATUS: u8 = 0x28;
/// INDIRECT_CTRL command code.
pub const CMD_INDIRECT_CTRL: u8 = 0x29;
/// INDIRECT_STATUS command code.
pub const CMD_INDIRECT_STATUS: u8 = 0x2A;
/// INDIRECT_DATA command code.
pub const CMD_INDIRECT_DATA: u8 = 0x2B;
/// VENDOR command code.
pub const CMD_VENDOR: u8 = 0x2C;
/// INDIRECT_FIFO_CTRL command code.
pub const CMD_INDIRECT_FIFO_CTRL: u8 = 0x2D;
/// INDIRECT_FIFO_STATUS command code.
pub const CMD_INDIRECT_FIFO_STATUS: u8 = 0x2E;
/// INDIRECT_FIFO_DATA command code.
pub const CMD_INDIRECT_FIFO_DATA: u8 = 0x2F;

/// The commands allowed only once the device has left `StatusPending`
/// (scope "R"): the memory-window and FIFO commands.
pub open spec fn recovery_only(code: u8) -> bool {
    code == CMD_INDIRECT_CTRL || code == CMD_INDIRECT_STATUS || code == CMD_INDIRECT_DATA || code
        == CMD_INDIRECT_FIFO_CTRL || code == CMD_INDIRECT_FIFO_STATUS || code
        == CMD_INDIRECT_FIFO_DATA
}

/// The commands whose reads the state machine answers.
pub open spec fn answered_read(code: u8) -> bool {
    code == CMD_PROT_CAP || code == CMD_DEVICE_ID || code == CMD_DEVICE_STATUS || code
        == CMD_DEVICE_RESET || code == CMD_RECOVERY_CTRL || code == CMD_RECOVERY_STATUS || code
        == CMD_HW_STATUS || code == CMD_INDIRECT_STATUS || code == CMD_INDIRECT_FIFO_CTRL
}

/// Whether `code` is a recovery-only command.
fn is_recovery_only(code: u8) -> (r: bool)
    ensures
        r == recovery_only(code),
{
    code == CMD_INDIRECT_CTRL || code == CMD_INDIRECT_STATUS || code == CMD_INDIRECT_DATA || code
        == CMD_INDIRECT_FIFO_CTRL || code == CMD_INDIRECT_FIFO_STATUS || code
        == CMD_INDIRECT_FIFO_DATA
}

/// Whether the state machine answers reads of `code`.
fn is_answered_read(code: u8) -> (r: bool)
    ensures
        r == answered_read(code),
{
    code == CMD_PROT_CAP || code == CMD_DEVICE_ID || code == CMD_DEVICE_STATUS || code
        == CMD_DEVICE_RESET || code == CMD_RECOVERY_CTRL || code == CMD_RECOVERY_STATUS || code
        == CMD_HW_STATUS || code == CMD_INDIRECT_STATUS || code == CMD_INDIRECT_FIFO_CTRL
}

/// The bytes of a response, if there is one.
pub open spec fn response_view(response: Option<Vec<u8>>) -> Option<Seq<u8>> {
    match response {
        Some(bytes) => Some(bytes@),
        None => None,
    }
}

/// The first `len` bytes of `buf`.
fn message_prefix(buf: &[u8], len: usize) -> (v: Vec<u8>)
    requires
        len <= buf@.len(),
    ensures
        v@ == buf@.subrange(0, len as int),
{
    vstd::slice::slice_to_vec(vstd::slice::slice_subrange(buf, 0, len))
}

/// The value of `w` after setting the capability bits in the order the
/// state machine sets them.
pub open spec fn capability_chain(
    local: bool,
    v0: bool,
    v1: bool,
    v2: bool,
    v3: bool,
    v4: bool,
    v5: bool,
    has_indirect: bool,
    has_fifo: bool,
) -> u16 {
    let w0 = with_bit_u16(with_bit_u16(0u16, 0, true), 4, true);
    let w1 = with_bit_u16(w0, 6, local);
    let w2 = with_bit_u16(with_bit_u16(with_bit_u16(w1, 1, v0), 2, v1), 3, v2);
    let w3 = with_bit_u16(with_bit_u16(with_bit_u16(w2, 8, v3), 9, v4), 10, v5);
    let w4 = with_bit_u16(with_bit_u16(w3, 7, has_indirect || has_fifo), 5, has_indirect);
    with_bit_u16(w4, 12, has_fifo)
}

/// Setting the bits one by one gives the packed word.
proof fn lemma_capability_chain(
    local: bool,
    v0: bool,
    v1: bool,
    v2: bool,
    v3: bool,
    v4: bool,
    v5: bool,
    has_indirect: bool,
    has_fifo: bool,
)
    ensures
        capability_chain(local, v0, v1, v2, v3, v4, v5, has_indirect, has_fifo)
            == pack_capabilities(
            true,
            v0,
            v1,
            v2,
            true,
            has_indirect,
            local,
            has_indirect || has_fifo,
            v3,
            v4,
            v5,
            false,
            has_fifo,
        ),
{
    assert(capability_chain(local, v0, v1, v2, v3, v4, v5, has_indirect, has_fifo)
        == pack_capabilities(
        true,
        v0,
        v1,
        v2,
        true,
        has_indirect,
        local,
        has_indirect || has_fifo,
        v3,
        v4,
        v5,
        false,
        has_fifo,
    )) by (bit_vector);
}

/// OCP Recovery Interface state machine.
///
/// Implements the recovery lifecycle of OCP Secure Firmware Recovery 1.1. The state machine owns the transport and handles
/// receive/send internally, exposing `process_command()` as the single
/// entry point for the integrator's main loop.
pub struct RecoveryStateMachine<'a, T: Transport, V: VendorHandler> {
    /// The transport the commands arrive on.
    pub transport: T,
    /// RECOVERY_STATUS (cmd=0x27) state.
    pub recovery_status: RecoveryStatus,
    /// RECOVERY_CTRL (cmd=0x26) state.
    pub recovery_ctrl: RecoveryCtrl,
    /// DEVICE_RESET (cmd=0x25) state.
    pub device_reset: DeviceReset,
    /// INDIRECT_CTRL (cmd=0x29) state: the selected memory-window CMS.
    pub indirect_ctrl: IndirectCtrl,
    /// INDIRECT_FIFO_CTRL (cmd=0x2D) state: the selected FIFO CMS.
    pub indirect_fifo_ctrl: IndirectFifoCtrl,
    /// DEVICE_STATUS byte 0.
    pub device_status_value: DeviceStatusValue,
    /// DEVICE_STATUS byte 1 (clear-on-read).
    pub protocol_error: ProtocolError,
    /// DEVICE_STATUS bytes 2-3.
    pub recovery_reason: RecoveryReasonCode,
    /// Static device configuration (identity, capabilities).
    pub config: RecoveryDeviceConfig<'a>,
    /// Memory-window CMS regions, each with its CMS index.
    pub indirect_regions: Vec<(u8, SliceIndirectRegion)>,
    /// FIFO CMS regions, each with its CMS index.
    pub fifo_regions: Vec<(u8, SliceFifoRegion)>,
    /// Total number of CMS regions (PROT_CAP byte 12).
    pub cms_count: u8,
    /// Integrator-provided vendor handler.
    pub vendor: V,
}

impl<'a, T: Transport, V: VendorHandler> RecoveryStateMachine<'a, T, V> {
    /// The memory-window regions, each with its CMS index.
    pub open spec fn spec_indirect_regions(self) -> Seq<(u8, SliceIndirectRegion)> {
        self.indirect_regions@
    }

    /// The FIFO regions, each with its CMS index.
    pub open spec fn spec_fifo_regions(self) -> Seq<(u8, SliceFifoRegion)> {
        self.fifo_regions@
    }

    /// The regions are well formed and form a topology `new` accepts.
    pub open spec fn wf(self) -> bool {
        &&& regions_wf(self.spec_indirect_regions(), self.spec_fifo_regions())
        &&& topology_error(self.spec_indirect_regions(), self.spec_fifo_regions()) is None
    }

    /// Everything but the protocol error is as in `other`.
    pub open spec fn same_except_protocol_error(self, other: Self) -> bool {
        &&& self.transport == other.transport
        &&& self.same_state_except_protocol_error(other)
    }

    /// Everything but the transport and the protocol error is as in `other`.
    pub open spec fn same_state_except_protocol_error(self, other: Self) -> bool {
        &&& self.recovery_status == other.recovery_status
        &&& self.recovery_ctrl == other.recovery_ctrl
        &&& self.device_reset == other.device_reset
        &&& self.indirect_ctrl == other.indirect_ctrl
        &&& self.indirect_fifo_ctrl == other.indirect_fifo_ctrl
        &&& self.device_status_value == other.device_status_value
        &&& self.recovery_reason == other.recovery_reason
        &&& self.config == other.config
        &&& self.spec_indirect_regions() == other.spec_indirect_regions()
        &&& self.spec_fifo_regions() == other.spec_fifo_regions()
        &&& self.cms_count == other.cms_count
        &&& self.vendor == other.vendor
    }

    /// The vendor status bytes a DEVICE_STATUS read reports: what the vendor
    /// handler supplies, cut to the most the message can carry.
    pub open spec fn spec_supplied_vendor_status(self) -> Seq<u8> {
        let v = self.vendor.spec_vendor_status();
        if v.len() <= MAX_VENDOR_STATUS_LEN {
            v
        } else {
            v.take(MAX_VENDOR_STATUS_LEN as int)
        }
    }

    /// The PROT_CAP capabilities word for the given vendor capabilities:
    /// identification and device status always, local C-image support from
    /// the configuration, push support whenever any region exists, memory
    /// access and FIFO support from the region kinds present, and the vendor
    /// bits in place.
    pub open spec fn spec_capabilities(self, vendor_caps: u8) -> u16 {
        pack_capabilities(
            true,
            bit_of_u8(vendor_caps, 0),
            bit_of_u8(vendor_caps, 1),
            bit_of_u8(vendor_caps, 2),
            true,
            self.spec_indirect_regions().len() > 0,
            self.config.local_c_image_support,
            self.spec_indirect_regions().len() > 0 || self.spec_fifo_regions().len() > 0,
            bit_of_u8(vendor_caps, 3),
            bit_of_u8(vendor_caps, 4),
            bit_of_u8(vendor_caps, 5),
            false,
            self.spec_fifo_regions().len() > 0,
        )
    }

    /// The PROT_CAP read response for the given vendor capabilities: an
    /// error when the device can neither recover from a local image nor take
    /// a pushed one, else the fifteen response bytes.
    pub open spec fn spec_prot_cap_response(self, vendor_caps: u8) -> Result<Seq<u8>, OcpError> {
        if !self.config.local_c_image_support && self.spec_indirect_regions().len() == 0
            && self.spec_fifo_regions().len() == 0 {
            Err(OcpError::ProtCapCImageSupportRequired)
        } else {
            Ok(
                spec_magic() + seq![self.config.major_version, self.config.minor_version]
                    + le_bytes_u16(self.spec_capabilities(vendor_caps)) + seq![
                    self.cms_count,
                    self.config.max_response_time,
                    self.config.heartbeat_period,
                ],
            )
        }
    }

    /// What a DEVICE_STATUS read does, given the heartbeat and vendor status
    /// the vendor handler supplied: it fails without a state change when
    /// those (or the stored reason code) cannot be reported, and otherwise
    /// answers with the stored status fields and clears the protocol error.
    pub open spec fn device_status_outcome(
        before: Self,
        after: Self,
        heartbeat: u16,
        vendor_status: Seq<u8>,
        r: Result<([u8; DEVICE_STATUS_MAX_MESSAGE_LEN], usize), OcpError>,
    ) -> bool {
        if vendor_status.len() > MAX_VENDOR_STATUS_LEN {
            r == Err::<([u8; DEVICE_STATUS_MAX_MESSAGE_LEN], usize), OcpError>(
                OcpError::DeviceStatusVendorStatusTooLong,
            ) && after == before
        } else if heartbeat > MAX_HEARTBEAT {
            r == Err::<([u8; DEVICE_STATUS_MAX_MESSAGE_LEN], usize), OcpError>(
                OcpError::DeviceStatusHeartbeatOutOfRange,
            ) && after == before
        } else if !before.recovery_reason.spec_valid() {
            r == Err::<([u8; DEVICE_STATUS_MAX_MESSAGE_LEN], usize), OcpError>(
                OcpError::DeviceStatusInvalidVendorReasonCode,
            ) && after == before
        } else {
            let m = device_status_bytes(
                before.device_status_value,
                before.protocol_error,
                before.recovery_reason,
                heartbeat,
                vendor_status,
            );
            &&& r matches Ok(res) && res.1 == m.len() && res.0@ == m + zeros(
                (DEVICE_STATUS_MAX_MESSAGE_LEN - m.len()) as nat,
            )
            &&& after.protocol_error == ProtocolError::NoError
            &&& after.same_except_protocol_error(before)
        }
    }

    /// The capabilities the device advertises pass the mandatory-capability
    /// check exactly when it can recover from a local C-image or take a pushed
    /// one; and whenever push support is advertised, so is a memory window or
    /// a FIFO to push through.
    pub proof fn lemma_advertised_capabilities_valid(self, vendor_caps: u8)
        ensures
            spec_validate(self.spec_capabilities(vendor_caps)) is Ok <==> (
            self.config.local_c_image_support || self.spec_indirect_regions().len() > 0
                || self.spec_fifo_regions().len() > 0),
            bit_of_u16(self.spec_capabilities(vendor_caps), 7) ==> bit_of_u16(
                self.spec_capabilities(vendor_caps),
                5,
            ) || bit_of_u16(self.spec_capabilities(vendor_caps), 12),
    {
        lemma_pack_capabilities_bits(
            true,
            bit_of_u8(vendor_caps, 0),
            bit_of_u8(vendor_caps, 1),
            bit_of_u8(vendor_caps, 2),
            true,
            self.spec_indirect_regions().len() > 0,
            self.config.local_c_image_support,
            self.spec_indirect_regions().len() > 0 || self.spec_fifo_regions().len() > 0,
            bit_of_u8(vendor_caps, 3),
            bit_of_u8(vendor_caps, 4),
            bit_of_u8(vendor_caps, 5),
            false,
            self.spec_fifo_regions().len() > 0,
        );
    }

    /// A CMS index names one region: in a state machine that `new` accepted,
    /// no index occurs in both the memory-window and the FIFO list, nor twice
    /// in either.
    pub proof fn lemma_cms_index_names_one_region(self)
        requires
            self.wf(),
        ensures
            forall|i: int, j: int|
                0 <= i < self.spec_indirect_regions().len() && 0 <= j
                    < self.spec_fifo_regions().len() ==> (#[trigger] self.spec_indirect_regions()[i]).0
                    != (#[trigger] self.spec_fifo_regions()[j]).0,
            forall|i: int, j: int|
                0 <= i < j < self.spec_indirect_regions().len() ==> (
                #[trigger] self.spec_indirect_regions()[i]).0 != (
                #[trigger] self.spec_indirect_regions()[j]).0,
            forall|i: int, j: int|
                0 <= i < j < self.spec_fifo_regions().len() ==> (
                #[trigger] self.spec_fifo_regions()[i]).0 != (
                #[trigger] self.spec_fifo_regions()[j]).0,
    {
        let indirect = self.spec_indirect_regions();
        let fifo = self.spec_fifo_regions();
        let all = cms_indices(indirect, fifo);
        assert forall|i: int, j: int|
            0 <= i < indirect.len() && 0 <= j < fifo.len() implies (#[trigger] indirect[i]).0 != (
            #[trigger] fifo[j]).0 by {
            assert(all[i] == indirect[i].0);
            assert(all[indirect.len() + j] == fifo[j].0);
        }
        assert forall|i: int, j: int| 0 <= i < j < indirect.len() implies (
        #[trigger] indirect[i]).0 != (#[trigger] indirect[j]).0 by {
            assert(all[i] == indirect[i].0);
            assert(all[j] == indirect[j].0);
        }
        assert forall|i: int, j: int| 0 <= i < j < fifo.len() implies (#[trigger] fifo[i]).0 != (
        #[trigger] fifo[j]).0 by {
            assert(all[indirect.len() + i] == fifo[i].0);
            assert(all[indirect.len() + j] == fifo[j].0);
        }
    }

    /// A received message is refused, with `UnsupportedCommand` recorded and
    /// no response, when it is not a one-byte read of a command the state
    /// machine answers (writes to the read-only commands are refused this
    /// way, and no write is served), when it is a recovery-only command while
    /// the device status is still pending, or when it reads HW_STATUS from a
    /// device that does not advertise hardware status.
    pub open spec fn spec_rejects(self, msg: Seq<u8>) -> bool {
        ||| msg.len() != 1
        ||| !answered_read(msg[0])
        ||| recovery_only(msg[0]) && self.device_status_value == DeviceStatusValue::StatusPending
        ||| msg[0] == CMD_HW_STATUS && !bit_of_u8(self.vendor.spec_capabilities().0, 4)
    }

    /// The response to a read that only reports stored or supplied state.
    pub open spec fn stored_read(s: Self, code: u8) -> Seq<u8> {
        if code == CMD_DEVICE_ID {
            s.config.device_id.spec_message()
        } else if code == CMD_DEVICE_RESET {
            s.device_reset.spec_message()
        } else if code == CMD_RECOVERY_CTRL {
            s.recovery_ctrl.spec_message()
        } else if code == CMD_RECOVERY_STATUS {
            s.recovery_status.spec_message()
        } else if code == CMD_HW_STATUS {
            s.vendor.spec_hw_status().spec_message()
        } else {
            s.indirect_fifo_ctrl.spec_message()
        }
    }

    /// What an accepted read of `code` does. PROT_CAP and DEVICE_STATUS
    /// answer as their handlers do and, when the handler fails, record
    /// `GeneralProtocolError` and send nothing; DEVICE_STATUS clears the
    /// protocol error it reports; INDIRECT_STATUS reports and clears the
    /// selected region's flags; the other reads report stored or supplied
    /// state and change nothing.
    pub open spec fn read_outcome(before: Self, after: Self, code: u8, response: Option<Seq<u8>>) -> bool {
        if code == CMD_PROT_CAP {
            match before.spec_prot_cap_response(before.vendor.spec_capabilities().0) {
                Ok(m) => response == Some(m) && after.same_state_except_protocol_error(before)
                    && after.protocol_error == before.protocol_error,
                Err(_) => response is None && after.protocol_error
                    == ProtocolError::GeneralProtocolError && after.same_state_except_protocol_error(
                    before,
                ),
            }
        } else if code == CMD_DEVICE_STATUS {
            let heartbeat = before.vendor.spec_heartbeat();
            if heartbeat > MAX_HEARTBEAT || !before.recovery_reason.spec_valid() {
                response is None && after.protocol_error == ProtocolError::GeneralProtocolError
                    && after.same_state_except_protocol_error(before)
            } else {
                &&& response == Some(
                    device_status_bytes(
                        before.device_status_value,
                        before.protocol_error,
                        before.recovery_reason,
                        heartbeat,
                        before.spec_supplied_vendor_status(),
                    ),
                )
                &&& after.protocol_error == ProtocolError::NoError
                &&& after.same_state_except_protocol_error(before)
            }
        } else if code == CMD_INDIRECT_STATUS {
            response matches Some(r) && Self::indirect_status_outcome(before, after, r)
        } else {
            &&& response == Some(Self::stored_read(before, code))
            &&& after.same_state_except_protocol_error(before)
            &&& after.protocol_error == before.protocol_error
        }
    }

    /// What `process_command` does with the transport's next receive: a
    /// receive error is returned and nothing else changes; a received message
    /// is handled as `message_outcome` says, its response (if any) is sent
    /// and joins the transport's log, and the result is `NoAction`, or the
    /// send's error when the send fails.
    pub open spec fn command_outcome(
        before: Self,
        after: Self,
        timeout: Timeout,
        r: Result<RecoveryAction, OcpError>,
    ) -> bool {
        match before.transport.spec_next_recv(timeout) {
            Err(e) => {
                &&& r == Err::<RecoveryAction, OcpError>(e)
                &&& after.same_state_except_protocol_error(before)
                &&& after.protocol_error == before.protocol_error
                &&& after.transport.spec_sent() == before.transport.spec_sent()
            },
            Ok(m) => exists|response: Option<Seq<u8>>|
                #[trigger] Self::message_outcome(before, after, m, response) && match response {
                    None => r == Ok::<RecoveryAction, OcpError>(RecoveryAction::NoAction)
                        && after.transport.spec_sent() == before.transport.spec_sent(),
                    Some(bytes) => match before.transport.spec_send_result(bytes) {
                        Ok(_) => r == Ok::<RecoveryAction, OcpError>(RecoveryAction::NoAction)
                            && after.transport.spec_sent() == before.transport.spec_sent().push(
                            bytes,
                        ),
                        Err(e) => r == Err::<RecoveryAction, OcpError>(e)
                            && after.transport.spec_sent() == before.transport.spec_sent(),
                    },
                },
        }
    }

    /// What handling the received message `msg` does: the next state and the
    /// response to send, if any.
    pub open spec fn message_outcome(
        before: Self,
        after: Self,
        msg: Seq<u8>,
        response: Option<Seq<u8>>,
    ) -> bool {
        &&& after.wf()
        &&& if before.spec_rejects(msg) {
            &&& response is None
            &&& after.protocol_error == ProtocolError::UnsupportedCommand
            &&& after.same_state_except_protocol_error(before)
        } else {
            Self::read_outcome(before, after, msg[0], response)
        }
    }

    /// What an INDIRECT_STATUS read does: it reports the memory-window region
    /// that INDIRECT_CTRL selects and clears that region's flags, or reports
    /// an unsupported region when no memory-window region has that index; all
    /// else (the transport aside) stays as it was.
    pub open spec fn indirect_status_outcome(before: Self, after: Self, r: Seq<u8>) -> bool {
        &&& after.wf()
        &&& after.indirect_regions@.len() == before.indirect_regions@.len()
        &&& after.fifo_regions@ == before.fifo_regions@
        &&& ({
            let cms = before.indirect_ctrl.cms;
            let regions = before.indirect_regions@;
            if exists|i: int| 0 <= i < regions.len() && #[trigger] regions[i].0 == cms {
                let i = choose|i: int| 0 <= i < regions.len() && #[trigger] regions[i].0 == cms;
                &&& r == region_status_message(regions[i].1)
                &&& after.indirect_regions@[i].0 == cms
                &&& after.indirect_regions@[i].1.spec_flags().0 == 0
                &&& after.indirect_regions@[i].1.spec_data() == regions[i].1.spec_data()
                &&& after.indirect_regions@[i].1.spec_imo() == regions[i].1.spec_imo()
                &&& after.indirect_regions@[i].1.spec_region_type() == regions[i].1.spec_region_type()
                &&& forall|j: int|
                    0 <= j < regions.len() && j != i ==> #[trigger] after.indirect_regions@[j]
                        == regions[j]
            } else {
                &&& r == unsupported_status_message()
                &&& after.indirect_regions@ == before.indirect_regions@
            }
        })
        &&& after.recovery_status == before.recovery_status
        &&& after.recovery_ctrl == before.recovery_ctrl
        &&& after.device_reset == before.device_reset
        &&& after.indirect_ctrl == before.indirect_ctrl
        &&& after.indirect_fifo_ctrl == before.indirect_fifo_ctrl
        &&& after.device_status_value == before.device_status_value
        &&& after.protocol_error == before.protocol_error
        &&& after.recovery_reason == before.recovery_reason
        &&& after.config == before.config
        &&& after.cms_count == before.cms_count
        &&& after.vendor == before.vendor
    }

    /// Scope R: the memory-window and FIFO commands (INDIRECT_CTRL 0x29,
    /// INDIRECT_STATUS 0x2A, INDIRECT_DATA 0x2B, INDIRECT_FIFO_CTRL 0x2D,
    /// INDIRECT_FIFO_STATUS 0x2E, INDIRECT_FIFO_DATA 0x2F) need the recovery
    /// interface to be active: while the device status is still pending, a
    /// read of any of them gets no response, records `UnsupportedCommand` and
    /// changes nothing else.
    pub proof fn lemma_recovery_commands_refused_while_pending(
        before: Self,
        after: Self,
        code: u8,
        response: Option<Seq<u8>>,
    )
        requires
            code == 0x29u8 || code == 0x2Au8 || code == 0x2Bu8 || code == 0x2Du8 || code == 0x2Eu8
                || code == 0x2Fu8,
            before.device_status_value == DeviceStatusValue::StatusPending,
            Self::message_outcome(before, after, seq![code], response),
        ensures
            response is None,
            after.protocol_error == ProtocolError::UnsupportedCommand,
            after.same_state_except_protocol_error(before),
    {
        assert(seq![code].len() == 1 && seq![code][0] == code);
    }

    /// The answers to the commands every state accepts (scope A): reads of
    /// DEVICE_ID (0x23), DEVICE_RESET (0x25), RECOVERY_CTRL (0x26) and
    /// RECOVERY_STATUS (0x27) report the stored identity or register and
    /// change nothing; a HW_STATUS (0x28) read is answered with the vendor's
    /// snapshot exactly when hardware status is advertised (capability bit 4);
    /// and a message of any length but one (a write, or nothing at all) is
    /// refused with `UnsupportedCommand`.
    pub proof fn lemma_dispatch_table(
        before: Self,
        after: Self,
        msg: Seq<u8>,
        response: Option<Seq<u8>>,
    )
        requires
            Self::message_outcome(before, after, msg, response),
        ensures
            msg.len() != 1 ==> response is None && after.protocol_error
                == ProtocolError::UnsupportedCommand && after.same_state_except_protocol_error(
                before,
            ),
            msg == seq![0x23u8] ==> response == Some(before.config.device_id.spec_message()),
            msg == seq![0x25u8] ==> response == Some(before.device_reset.spec_message()),
            msg == seq![0x26u8] ==> response == Some(before.recovery_ctrl.spec_message()),
            msg == seq![0x27u8] ==> response == Some(before.recovery_status.spec_message()),
            (msg == seq![0x23u8] || msg == seq![0x25u8] || msg == seq![0x26u8] || msg == seq![
                0x27u8,
            ]) ==> after.same_state_except_protocol_error(before) && after.protocol_error
                == before.protocol_error,
            msg == seq![0x28u8] && bit_of_u8(before.vendor.spec_capabilities().0, 4) ==> response
                == Some(before.vendor.spec_hw_status().spec_message()),
            msg == seq![0x28u8] && !bit_of_u8(before.vendor.spec_capabilities().0, 4) ==> response
                is None && after.protocol_error == ProtocolError::UnsupportedCommand,
            msg == seq![0x2Du8] && before.device_status_value != DeviceStatusValue::StatusPending
                ==> response == Some(before.indirect_fifo_ctrl.spec_message()),
    {
        if msg.len() == 1 {
            assert(msg == seq![msg[0]]);
        }
    }

    /// Clear-on-read: once a protocol error is recorded, the next DEVICE_STATUS
    /// read that succeeds reports it in byte 1, and a successful read right
    /// after that reports no error.
    pub proof fn lemma_protocol_error_clear_on_read(
        recorded: Self,
        after_first: Self,
        after_second: Self,
        err: ProtocolError,
        heartbeat1: u16,
        vendor_status1: Seq<u8>,
        r1: Result<([u8; DEVICE_STATUS_MAX_MESSAGE_LEN], usize), OcpError>,
        heartbeat2: u16,
        vendor_status2: Seq<u8>,
        r2: Result<([u8; DEVICE_STATUS_MAX_MESSAGE_LEN], usize), OcpError>,
    )
        requires
            recorded.protocol_error == err,
            Self::device_status_outcome(recorded, after_first, heartbeat1, vendor_status1, r1),
            r1 is Ok,
            Self::device_status_outcome(after_first, after_second, heartbeat2, vendor_status2, r2),
            r2 is Ok,
        ensures
            r1->Ok_0.0@[1] == err.spec_code(),
            r2->Ok_0.0@[1] == ProtocolError::NoError.spec_code(),
            after_second.protocol_error == ProtocolError::NoError,
    {
    }

    /// Construct a new state machine with the protocol's power-on defaults.
    ///
    /// All protocol state is initialized to power-on defaults: device status
    /// is `StatusPending`, no protocol errors, no boot failure, recovery
    /// status is `NotInRecovery`, and all control registers are zeroed.
    ///
    /// The region topology is refused when memory-window regions exist but
    /// CMS 0 is not one of them with a code type, when a CMS index occurs
    /// twice across both lists, or when there are more than 255 regions.
    pub fn new(
        config: RecoveryDeviceConfig<'a>,
        transport: T,
        indirect_regions: Vec<(u8, SliceIndirectRegion)>,
        fifo_regions: Vec<(u8, SliceFifoRegion)>,
        vendor: V,
    ) -> (r: Result<Self, OcpError>)
        requires
            regions_wf(indirect_regions@, fifo_regions@),
        ensures
            topology_error(indirect_regions@, fifo_regions@) matches Some(e) ==> r == Err::<
                Self,
                OcpError,
            >(e),
            topology_error(indirect_regions@, fifo_regions@) is None ==> (r matches Ok(sm) && {
                &&& sm.wf()
                &&& sm.spec_indirect_regions() == indirect_regions@
                &&& sm.spec_fifo_regions() == fifo_regions@
                &&& sm.cms_count == indirect_regions@.len() + fifo_regions@.len()
                &&& sm.recovery_status.spec_status() == DeviceRecoveryStatus::NotInRecovery
                &&& sm.recovery_status.spec_image_index() == 0
                &&& sm.recovery_status.spec_vendor_status() == 0
                &&& sm.recovery_ctrl == RecoveryCtrl {
                    cms: 0,
                    image_selection: ImageSelection::NoOperation,
                    activate: ActivateRecoveryImage::DoNotActivate,
                }
                &&& sm.device_reset == DeviceReset {
                    reset_control: ResetControl::NoReset,
                    forced_recovery: ForcedRecoveryMode::NoForcedRecovery,
                    interface_control: InterfaceControl::DisableMastering,
                }
                &&& sm.indirect_ctrl == IndirectCtrl { cms: 0, imo: 0 }
                &&& sm.indirect_fifo_ctrl == IndirectFifoCtrl { cms: 0, reset: false, image_size: 0 }
                &&& sm.device_status_value == DeviceStatusValue::StatusPending
                &&& sm.protocol_error == ProtocolError::NoError
                &&& sm.recovery_reason == RecoveryReasonCode::NoBootFailure
                &&& sm.config == config
                &&& sm.transport == transport
                &&& sm.vendor == vendor
            }),
    {
        let recovery_status = match RecoveryStatus::new(DeviceRecoveryStatus::NotInRecovery, 0, 0) {
            Ok(s) => s,
            Err(e) => return Err(e),
        };

        if indirect_regions.len() > 0 && !Self::find_code_cms0(&indirect_regions) {
            return Err(OcpError::IndirectCms0NotCodeSpace);
        }

        // Verify no CMS index appears more than once across both lists.
        let indices = Self::collect_indices(&indirect_regions, &fifo_regions);
        if !Self::distinct(&indices) {
            return Err(OcpError::DuplicateCmsIndex);
        }

        let indirect_count = indirect_regions.len();
        let fifo_count = fifo_regions.len();
        if indirect_count > 255 || fifo_count > 255 - indirect_count {
            return Err(OcpError::InvalidCmdBufferCount);
        }
        let cms_count = (indirect_count + fifo_count) as u8;

        Ok(Self {
            transport,
            recovery_status,
            recovery_ctrl: RecoveryCtrl::new(
                0,
                ImageSelection::NoOperation,
                ActivateRecoveryImage::DoNotActivate,
            ),
            device_reset: DeviceReset::new(
                ResetControl::NoReset,
                ForcedRecoveryMode::NoForcedRecovery,
                InterfaceControl::DisableMastering,
            ),
            indirect_ctrl: IndirectCtrl { cms: 0, imo: 0 },
            indirect_fifo_ctrl: IndirectFifoCtrl::new(0, false, 0),
            cms_count,
            device_status_value: DeviceStatusValue::StatusPending,
            protocol_error: ProtocolError::NoError,
            recovery_reason: RecoveryReasonCode::NoBootFailure,
            config,
            indirect_regions,
            fifo_regions,
            vendor,
        })
    }

    /// Whether some memory-window region has index 0 and a code type.
    fn find_code_cms0(indirect: &Vec<(u8, SliceIndirectRegion)>) -> (r: bool)
        requires
            forall|i: int| 0 <= i < indirect@.len() ==> (#[trigger] indirect@[i]).1.wf(),
        ensures
            r == has_code_cms0(indirect@),
    {
        let mut k: usize = 0;
        while k < indirect.len()
            invariant
                k <= indirect@.len(),
                forall|i: int| 0 <= i < indirect@.len() ==> (#[trigger] indirect@[i]).1.wf(),
                forall|i: int|
                    0 <= i < k ==> !(#[trigger] indirect@[i].0 == 0
                        && indirect@[i].1.spec_region_type() == CmsRegionType::CodeSpace),
            decreases indirect@.len() - k,
        {
            let entry = &indirect[k];
            if entry.0 == 0 && entry.1.status().cms_region_type() == CmsRegionType::CodeSpace {
                return true;
            }
            k = k + 1;
        }
        false
    }

    /// The CMS indices of both region lists, memory-window ones first.
    fn collect_indices(
        indirect: &Vec<(u8, SliceIndirectRegion)>,
        fifo: &Vec<(u8, SliceFifoRegion)>,
    ) -> (r: Vec<u8>)
        ensures
            r@ == cms_indices(indirect@, fifo@),
    {
        let mut out: Vec<u8> = Vec::new();
        let mut k: usize = 0;
        while k < indirect.len()
            invariant
                k <= indirect@.len(),
                out@.len() == k,
                forall|i: int| 0 <= i < k ==> #[trigger] out@[i] == indirect@[i].0,
            decreases indirect@.len() - k,
        {
            out.push(indirect[k].0);
            k = k + 1;
        }
        let mut k: usize = 0;
        while k < fifo.len()
            invariant
                k <= fifo@.len(),
                out@.len() == indirect@.len() + k,
                forall|i: int| 0 <= i < indirect@.len() ==> #[trigger] out@[i] == indirect@[i].0,
                forall|i: int|
                    0 <= i < k ==> #[trigger] out@[indirect@.len() + i] == fifo@[i].0,
            decreases fifo@.len() - k,
        {
            out.push(fifo[k].0);
            k = k + 1;
        }
        assert(out@ =~= cms_indices(indirect@, fifo@)) by {
            assert forall|i: int| 0 <= i < out@.len() implies out@[i] == cms_indices(
                indirect@,
                fifo@,
            )[i] by {
                if i >= indirect@.len() {
                    assert(out@[indirect@.len() + (i - indirect@.len())] == fifo@[i
                        - indirect@.len()].0);
                }
            }
        }
        out
    }

    /// Whether no value occurs twice in `v`.
    fn distinct(v: &Vec<u8>) -> (r: bool)
        ensures
            r == all_distinct(v@),
    {
        let n = v.len();
        let mut i: usize = 0;
        while i < n
            invariant
                n == v@.len(),
                i <= n,
                forall|a: int, b: int| 0 <= a < i && a < b < n ==> v@[a] != v@[b],
            decreases n - i,
        {
            let mut j: usize = i + 1;
            while j < n
                invariant
                    n == v@.len(),
                    i < n,
                    i + 1 <= j <= n,
                    forall|a: int, b: int| 0 <= a < i && a < b < n ==> v@[a] != v@[b],
                    forall|b: int| i < b < j ==> v@[i as int] != v@[b],
                decreases n - j,
            {
                if v[i] == v[j] {
                    return false;
                }
                j = j + 1;
            }
            i = i + 1;
        }
        true
    }

    /// Block for the next command on the transport, process it, send any
    /// response, and return an action for the integrator to handle.
    ///
    /// Returns an error only if the transport itself fails, and then the
    /// transport's error. Protocol-level errors are recorded in DEVICE_STATUS
    /// and do not make this return an error.
    pub fn process_command(&mut self, timeout: Timeout) -> (r: Result<RecoveryAction, OcpError>)
        requires
            old(self).wf(),
        ensures
            final(self).wf(),
            Self::command_outcome(*old(self), *final(self), timeout, r),
    {
        let msg = match self.transport.recv_msg(timeout) {
            Ok(received) => vstd::slice::slice_to_vec(received),
            Err(e) => return Err(e),
        };
        let response = self.handle_message(msg.as_slice());
        let ghost handled = response_view(response);
        proof {
            assert(Self::message_outcome(*old(self), *self, msg@, handled));
        }
        if let Some(bytes) = response {
            match self.transport.send_msg(bytes.as_slice()) {
                Ok(()) => {},
                Err(e) => {
                    proof {
                        assert(Self::message_outcome(*old(self), *self, msg@, handled));
                    }
                    return Err(e);
                },
            }
        }
        proof {
            assert(Self::message_outcome(*old(self), *self, msg@, handled));
        }
        Ok(RecoveryAction::NoAction)
    }

    /// Handle one received message: check it, dispatch it to its handler,
    /// and return the response to send, if any.
    ///
    /// A one-byte message is a read of the command it names. Unknown
    /// commands, writes, reads of commands this state machine does not
    /// answer, recovery-only commands while the device status is pending, and
    /// HW_STATUS reads from a device without hardware status record
    /// `UnsupportedCommand` and get no response.
    pub fn handle_message(&mut self, msg: &[u8]) -> (response: Option<Vec<u8>>)
        requires
            old(self).wf(),
        ensures
            Self::message_outcome(*old(self), *final(self), msg@, response_view(response)),
            final(self).transport == old(self).transport,
    {
        if msg.len() != 1 {
            self.set_protocol_error(ProtocolError::UnsupportedCommand);
            return None;
        }
        let code = msg[0];
        if !is_answered_read(code) || (is_recovery_only(code) && self.device_status_value
            == DeviceStatusValue::StatusPending) {
            self.set_protocol_error(ProtocolError::UnsupportedCommand);
            return None;
        }
        if code == CMD_HW_STATUS && !self.vendor.capabilities().hardware_status() {
            self.set_protocol_error(ProtocolError::UnsupportedCommand);
            return None;
        }
        if code == CMD_PROT_CAP {
            match self.handle_prot_cap_read() {
                Ok(m) => Some(vstd::slice::slice_to_vec(m.as_slice())),
                Err(_) => {
                    self.set_protocol_error(ProtocolError::GeneralProtocolError);
                    None
                },
            }
        } else if code == CMD_DEVICE_STATUS {
            match self.handle_device_status_read() {
                Ok((buf, len)) => {
                    let v = message_prefix(buf.as_slice(), len);
                    assert(v@ =~= device_status_bytes(
                        old(self).device_status_value,
                        old(self).protocol_error,
                        old(self).recovery_reason,
                        old(self).vendor.spec_heartbeat(),
                        old(self).spec_supplied_vendor_status(),
                    ));
                    Some(v)
                },
                Err(_) => {
                    self.set_protocol_error(ProtocolError::GeneralProtocolError);
                    None
                },
            }
        } else if code == CMD_INDIRECT_STATUS {
            let m = self.handle_indirect_status_read();
            Some(vstd::slice::slice_to_vec(m.as_slice()))
        } else if code == CMD_DEVICE_ID {
            let (buf, len) = self.handle_device_id_read();
            let v = message_prefix(buf.as_slice(), len);
            assert(v@ =~= self.config.device_id.spec_message());
            Some(v)
        } else if code == CMD_HW_STATUS {
            let (buf, len) = self.handle_hw_status_read();
            let v = message_prefix(buf.as_slice(), len);
            assert(v@ =~= self.vendor.spec_hw_status().spec_message());
            Some(v)
        } else if code == CMD_DEVICE_RESET {
            let m = self.device_reset.to_message();
            Some(vstd::slice::slice_to_vec(m.as_slice()))
        } else if code == CMD_RECOVERY_CTRL {
            let m = self.recovery_ctrl.to_message();
            Some(vstd::slice::slice_to_vec(m.as_slice()))
        } else if code == CMD_RECOVERY_STATUS {
            let m = self.handle_recovery_status_read();
            Some(vstd::slice::slice_to_vec(m.as_slice()))
        } else {
            let m = self.indirect_fifo_ctrl.to_message();
            Some(vstd::slice::slice_to_vec(m.as_slice()))
        }
    }

    /// Called by the integrator after activation completes (successfully
    /// or not). Updates device status and recovery status accordingly: a
    /// successful activation reports recovery success and a device running
    /// its recovery image, a failed one reports recovery failure. The
    /// recovery image index is kept.
    pub fn complete_activation(&mut self, success: bool)
        ensures
            final(self).recovery_status.spec_status() == (if success {
                DeviceRecoveryStatus::Success
            } else {
                DeviceRecoveryStatus::Failed
            }),
            final(self).recovery_status.spec_image_index() == old(
                self,
            ).recovery_status.spec_image_index(),
            final(self).recovery_status.spec_vendor_status() == old(
                self,
            ).recovery_status.spec_vendor_status(),
            final(self).device_status_value == (if success {
                DeviceStatusValue::RunningRecoveryImage
            } else {
                old(self).device_status_value
            }),
            final(self).transport == old(self).transport,
            final(self).recovery_ctrl == old(self).recovery_ctrl,
            final(self).device_reset == old(self).device_reset,
            final(self).indirect_ctrl == old(self).indirect_ctrl,
            final(self).indirect_fifo_ctrl == old(self).indirect_fifo_ctrl,
            final(self).protocol_error == old(self).protocol_error,
            final(self).recovery_reason == old(self).recovery_reason,
            final(self).config == old(self).config,
            final(self).indirect_regions == old(self).indirect_regions,
            final(self).fifo_regions == old(self).fifo_regions,
            final(self).cms_count == old(self).cms_count,
            final(self).vendor == old(self).vendor,
    {
        let index = self.recovery_status.image_index();
        let vendor_status = self.recovery_status.vendor_status();
        proof {
            self.recovery_status.lemma_image_index_range();
        }
        let status = if success {
            DeviceRecoveryStatus::Success
        } else {
            DeviceRecoveryStatus::Failed
        };
        match RecoveryStatus::new(status, index, vendor_status) {
            Ok(s) => {
                self.recovery_status = s;
            },
            Err(_) => {},
        }
        if success {
            self.device_status_value = DeviceStatusValue::RunningRecoveryImage;
        }
    }

    /// Look up a memory-window CMS region by index, returning its position
    /// in the list of memory-window regions.
    pub fn lookup_indirect_region(&self, cms: u8) -> (r: Option<usize>)
        ensures
            r matches Some(i) ==> i < self.indirect_regions@.len() && self.indirect_regions@[i as int].0
                == cms && forall|j: int|
                0 <= j < i ==> #[trigger] self.indirect_regions@[j].0 != cms,
            r is None ==> forall|j: int|
                0 <= j < self.indirect_regions@.len() ==> #[trigger] self.indirect_regions@[j].0
                    != cms,
    {
        let mut k: usize = 0;
        while k < self.indirect_regions.len()
            invariant
                k <= self.indirect_regions@.len(),
                forall|j: int| 0 <= j < k ==> #[trigger] self.indirect_regions@[j].0 != cms,
            decreases self.indirect_regions@.len() - k,
        {
            if self.indirect_regions[k].0 == cms {
                return Some(k);
            }
            k = k + 1;
        }
        None
    }

    /// Look up a FIFO CMS region by index, returning its position in the
    /// list of FIFO regions.
    pub fn lookup_fifo_region(&self, cms: u8) -> (r: Option<usize>)
        ensures
            r matches Some(i) ==> i < self.fifo_regions@.len() && self.fifo_regions@[i as int].0 == cms
                && forall|j: int| 0 <= j < i ==> #[trigger] self.fifo_regions@[j].0 != cms,
            r is None ==> forall|j: int|
                0 <= j < self.fifo_regions@.len() ==> #[trigger] self.fifo_regions@[j].0 != cms,
    {
        let mut k: usize = 0;
        while k < self.fifo_regions.len()
            invariant
                k <= self.fifo_regions@.len(),
                forall|j: int| 0 <= j < k ==> #[trigger] self.fifo_regions@[j].0 != cms,
            decreases self.fifo_regions@.len() - k,
        {
            if self.fifo_regions[k].0 == cms {
                return Some(k);
            }
            k = k + 1;
        }
        None
    }

    /// Record a protocol error for the next DEVICE_STATUS read.
    pub fn set_protocol_error(&mut self, err: ProtocolError)
        ensures
            final(self).protocol_error == err,
            final(self).same_except_protocol_error(*old(self)),
    {
        self.protocol_error = err;
    }

    /// Build the PROT_CAP capabilities bitfield from the region
    /// configuration and the vendor-reported capabilities.
    ///
    /// Identification and device_status are always set. CMS 0 is a code
    /// region whenever memory-window regions are present (enforced by
    /// `new()`), so push_c_image_support and recovery_memory_access are set
    /// together whenever such regions exist; FIFO regions set
    /// push_c_image_support and fifo_cms_support. Bits 1-3 and 8-10 come from
    /// `VendorHandler::capabilities()`.
    pub fn build_capabilities(&self) -> (r: RecoveryProtocolCapabilities)
        ensures
            r.0 == self.spec_capabilities(self.vendor.spec_capabilities().0),
    {
        let vendor_caps = self.vendor.capabilities();
        self.capabilities_for(vendor_caps)
    }

    /// The PROT_CAP capabilities bitfield for the given vendor capabilities.
    pub fn capabilities_for(&self, vendor_caps: VendorCapabilities) -> (r:
        RecoveryProtocolCapabilities)
        ensures
            r.0 == self.spec_capabilities(vendor_caps.0),
    {
        let mut caps = RecoveryProtocolCapabilities(0);
        let has_indirect = self.indirect_regions.len() > 0;
        let has_fifo = self.fifo_regions.len() > 0;

        caps.set_identification(true);
        caps.set_device_status(true);
        caps.set_local_c_image_support(self.config.local_c_image_support);

        caps.set_forced_recovery(vendor_caps.forced_recovery());
        caps.set_mgmt_reset(vendor_caps.mgmt_reset());
        caps.set_device_reset(vendor_caps.device_reset());
        caps.set_interface_isolation(vendor_caps.interface_isolation());
        caps.set_hardware_status(vendor_caps.hardware_status());
        caps.set_vendor_command(vendor_caps.vendor_command());

        // NOTE: push_c_image_support is set for FIFO-only configurations too.
        // Protocol 1.1 asks for a memory window whenever push is set; a pushed
        // image can equally arrive through a FIFO.
        caps.set_push_c_image_support(has_indirect || has_fifo);
        caps.set_recovery_memory_access(has_indirect);
        caps.set_fifo_cms_support(has_fifo);
        proof {
            lemma_capability_chain(
                self.config.local_c_image_support,
                bit_of_u8(vendor_caps.0, 0),
                bit_of_u8(vendor_caps.0, 1),
                bit_of_u8(vendor_caps.0, 2),
                bit_of_u8(vendor_caps.0, 3),
                bit_of_u8(vendor_caps.0, 4),
                bit_of_u8(vendor_caps.0, 5),
                has_indirect,
                has_fifo,
            );
        }
        caps
    }

    /// Handle a PROT_CAP (cmd=0x22) read: build and serialize the response.
    pub fn handle_prot_cap_read(&self) -> (r: Result<[u8; RESPONSE_LEN], OcpError>)
        ensures
            match self.spec_prot_cap_response(self.vendor.spec_capabilities().0) {
                Ok(m) => r matches Ok(msg) && msg@ == m,
                Err(e) => r == Err::<[u8; RESPONSE_LEN], OcpError>(e),
            },
    {
        let vendor_caps = self.vendor.capabilities();
        self.prot_cap_response(vendor_caps)
    }

    /// The PROT_CAP read response for the given vendor capabilities.
    pub fn prot_cap_response(&self, vendor_caps: VendorCapabilities) -> (r: Result<
        [u8; RESPONSE_LEN],
        OcpError,
    >)
        ensures
            match self.spec_prot_cap_response(vendor_caps.0) {
                Ok(m) => r matches Ok(msg) && msg@ == m,
                Err(e) => r == Err::<[u8; RESPONSE_LEN], OcpError>(e),
            },
    {
        let caps = self.capabilities_for(vendor_caps);
        proof {
            crate::protocol::prot_cap::lemma_pack_capabilities_bits(
                true,
                bit_of_u8(vendor_caps.0, 0),
                bit_of_u8(vendor_caps.0, 1),
                bit_of_u8(vendor_caps.0, 2),
                true,
                self.indirect_regions@.len() > 0,
                self.config.local_c_image_support,
                self.indirect_regions@.len() > 0 || self.fifo_regions@.len() > 0,
                bit_of_u8(vendor_caps.0, 3),
                bit_of_u8(vendor_caps.0, 4),
                bit_of_u8(vendor_caps.0, 5),
                false,
                self.fifo_regions@.len() > 0,
            );
        }
        let prot_cap = ProtCap::new(
            self.config.major_version,
            self.config.minor_version,
            caps,
            self.cms_count,
            self.config.max_response_time,
            self.config.heartbeat_period,
        );
        prot_cap.to_message()
    }

    /// Handle a PROT_CAP (cmd=0x22) write: read-only command, set error.
    pub fn handle_prot_cap_write(&mut self)
        ensures
            final(self).protocol_error == ProtocolError::UnsupportedCommand,
            final(self).same_except_protocol_error(*old(self)),
    {
        self.set_protocol_error(ProtocolError::UnsupportedCommand);
    }

    /// Handle a DEVICE_ID (cmd=0x23) read: serialize the device identity.
    pub fn handle_device_id_read(&self) -> (r: ([u8; DEVICE_ID_MAX_MESSAGE_LEN], usize))
        ensures
            r.1 == self.config.device_id.spec_message().len(),
            r.0@ == self.config.device_id.spec_message() + zeros(
                (DEVICE_ID_MAX_MESSAGE_LEN - self.config.device_id.spec_message().len()) as nat,
            ),
    {
        self.config.device_id.to_message()
    }

    /// Handle a DEVICE_ID (cmd=0x23) write: read-only command, set error.
    pub fn handle_device_id_write(&mut self)
        ensures
            final(self).protocol_error == ProtocolError::UnsupportedCommand,
            final(self).same_except_protocol_error(*old(self)),
    {
        self.set_protocol_error(ProtocolError::UnsupportedCommand);
    }

    /// Handle a DEVICE_STATUS (cmd=0x24) read: assemble dynamic fields and
    /// serialize.
    ///
    /// Protocol error is clear-on-read: the current value is included in the
    /// response, then reset to `NoError`.
    pub fn handle_device_status_read(&mut self) -> (r: Result<
        ([u8; DEVICE_STATUS_MAX_MESSAGE_LEN], usize),
        OcpError,
    >)
        ensures
            Self::device_status_outcome(
                *old(self),
                *final(self),
                old(self).vendor.spec_heartbeat(),
                old(self).spec_supplied_vendor_status(),
                r,
            ),
    {
        let heartbeat = self.vendor.heartbeat();
        let mut vendor_buf = [0u8; MAX_VENDOR_STATUS_LEN];
        let vendor_len = self.vendor.vendor_device_status(&mut vendor_buf);
        let vendor_status = vstd::slice::slice_subrange(vendor_buf.as_slice(), 0, vendor_len);
        proof {
            let v = self.vendor.spec_vendor_status();
            assert(v.take(v.len() as int) =~= v);
            assert(vendor_status@ =~= vendor_buf@.subrange(0, vendor_len as int));
            assert(vendor_status@ == self.spec_supplied_vendor_status());
        }
        self.device_status_response(heartbeat, vendor_status)
    }

    /// The DEVICE_STATUS read response for the given heartbeat and vendor
    /// status bytes; clears the protocol error when it succeeds.
    pub fn device_status_response(&mut self, heartbeat: u16, vendor_status: &[u8]) -> (r: Result<
        ([u8; DEVICE_STATUS_MAX_MESSAGE_LEN], usize),
        OcpError,
    >)
        ensures
            Self::device_status_outcome(*old(self), *final(self), heartbeat, vendor_status@, r),
    {
        let status = match DeviceStatus::new(
            self.device_status_value,
            self.protocol_error,
            self.recovery_reason,
            heartbeat,
            vendor_status,
        ) {
            Ok(s) => s,
            Err(e) => return Err(e),
        };
        let result = status.to_message();
        self.protocol_error = ProtocolError::NoError;
        Ok(result)
    }

    /// Handle a DEVICE_STATUS (cmd=0x24) write: read-only command, set error.
    pub fn handle_device_status_write(&mut self)
        ensures
            final(self).protocol_error == ProtocolError::UnsupportedCommand,
            final(self).same_except_protocol_error(*old(self)),
    {
        self.set_protocol_error(ProtocolError::UnsupportedCommand);
    }

    /// Handle a RECOVERY_STATUS (cmd=0x27) read: serialize stored recovery status.
    pub fn handle_recovery_status_read(&self) -> (r: [u8; RECOVERY_STATUS_MESSAGE_LEN])
        ensures
            r@ == self.recovery_status.spec_message(),
    {
        self.recovery_status.to_message()
    }

    /// Handle a RECOVERY_STATUS (cmd=0x27) write: read-only command, set error.
    pub fn handle_recovery_status_write(&mut self)
        ensures
            final(self).protocol_error == ProtocolError::UnsupportedCommand,
            final(self).same_except_protocol_error(*old(self)),
    {
        self.set_protocol_error(ProtocolError::UnsupportedCommand);
    }

    /// Handle a HW_STATUS (cmd=0x28) read: delegate to vendor and serialize.
    pub fn handle_hw_status_read(&self) -> (r: ([u8; HW_STATUS_MAX_MESSAGE_LEN], usize))
        ensures
            r.1 == self.vendor.spec_hw_status().spec_message().len(),
            r.0@ == self.vendor.spec_hw_status().spec_message() + zeros(
                (HW_STATUS_MAX_MESSAGE_LEN - self.vendor.spec_hw_status().spec_message().len()) as nat,
            ),
    {
        let hs = self.vendor.hw_status();
        let r = hs.to_message();
        assert(Seq::new(
            (HW_STATUS_MAX_MESSAGE_LEN - hs.spec_message().len()) as nat,
            |i: int| 0u8,
        ) =~= zeros((HW_STATUS_MAX_MESSAGE_LEN - hs.spec_message().len()) as nat));
        r
    }

    /// Handle a HW_STATUS (cmd=0x28) write: read-only command, set error.
    pub fn handle_hw_status_write(&mut self)
        ensures
            final(self).protocol_error == ProtocolError::UnsupportedCommand,
            final(self).same_except_protocol_error(*old(self)),
    {
        self.set_protocol_error(ProtocolError::UnsupportedCommand);
    }

    /// Handle an INDIRECT_STATUS (cmd=0x2A) read.
    ///
    /// Looks up the memory-window CMS region selected by `indirect_ctrl.cms`.
    /// If found, returns its status and clears its accumulated flags
    /// (clear-on-read). If the index doesn't match any memory-window region
    /// (including FIFO-only indices), reports an unsupported region.
    pub fn handle_indirect_status_read(&mut self) -> (r: [u8; INDIRECT_STATUS_MESSAGE_LEN])
        requires
            old(self).wf(),
        ensures
            Self::indirect_status_outcome(*old(self), *final(self), r@),
            final(self).transport == old(self).transport,
    {
        let cms = self.indirect_ctrl.cms;
        match self.lookup_indirect_region(cms) {
            Some(i) => {
                let ghost regions = self.indirect_regions@;
                proof {
                    // Indices are distinct, so the region found is the only one with `cms`.
                    assert forall|j: int| 0 <= j < regions.len() && regions[j].0 == cms implies j
                        == i by {
                        let idx = cms_indices(regions, self.fifo_regions@);
                        assert(idx[j] == regions[j].0);
                        assert(idx[i as int] == regions[i as int].0);
                    }
                }
                let status = self.indirect_regions[i].1.status();
                let (idx, mut region) = self.indirect_regions.remove(i);
                region.clear_status();
                self.indirect_regions.insert(i, (idx, region));
                proof {
                    assert(self.indirect_regions@ =~= regions.update(i as int, (idx, region)));
                    assert(cms_indices(self.indirect_regions@, self.fifo_regions@) =~= cms_indices(
                        regions,
                        self.fifo_regions@,
                    ));
                    if self.indirect_regions@.len() > 0 {
                        let k = choose|k: int|
                            0 <= k < regions.len() && #[trigger] regions[k].0 == 0
                                && regions[k].1.spec_region_type() == CmsRegionType::CodeSpace;
                        assert(self.indirect_regions@[k].0 == 0);
                    }
                }
                let r = status.to_message();
                assert(r@ =~= region_status_message(regions[i as int].1));
                r
            },
            None => {
                let r = IndirectStatus::new(
                    StatusFlags(0),
                    CmsRegionType::Unsupported,
                    false,
                    0,
                ).to_message();
                assert(r@ =~= unsupported_status_message());
                r
            },
        }
    }

    /// Handle an INDIRECT_STATUS (cmd=0x2A) write: read-only command, set error.
    pub fn handle_indirect_status_write(&mut self)
        ensures
            final(self).protocol_error == ProtocolError::UnsupportedCommand,
            final(self).same_except_protocol_error(*old(self)),
    {
        self.set_protocol_error(ProtocolError::UnsupportedCommand);
    }
}

} // verus!
