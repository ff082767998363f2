//! Error types of the OCP recovery library.

use vstd::prelude::*;

verus! {

/// The errors that can arise in handling the OCP Recovery protocol.
#[derive(Debug, Clone, Copy, PartialEq, Eq, Structural)]
pub enum OcpError {
    /// PROT_CAP: identification (bit 0) MUST be set.
    ProtCapIdentificationRequired,
    /// PROT_CAP: device_status (bit 4) MUST be set.
    ProtCapDeviceStatusRequired,
    /// PROT_CAP: at least one of local_c_image_support (bit 6) or push_c_image_support (bit 7) MUST be set.
    ProtCapCImageSupportRequired,
    /// PROT_CAP: a memory path (bit 5 or bit 12) MUST be set when push_c_image_support (bit 7) is set.
    ProtCapRecoveryMemoryAccessRequired,
    /// DEVICE_RESET: reserved value in Reset Control field (byte 0).
    DeviceResetInvalidResetControl,
    /// DEVICE_RESET: reserved value in Forced Recovery field (byte 1).
    DeviceResetInvalidForcedRecoveryMode,
    /// DEVICE_RESET: reserved value in Interface Control field (byte 2).
    DeviceResetInvalidInterfaceControl,
    /// Message slice is too short for the expected command.
    MessageTooShort,
    /// Message slice is longer than the expected command.
    MessageTooLong,
    /// RECOVERY_CTRL: reserved value in Image Selection field (byte 1).
    RecoveryCtrlInvalidImageSelection,
    /// RECOVERY_CTRL: reserved value in Activate field (byte 2).
    RecoveryCtrlInvalidActivate,
    /// RECOVERY_STATUS: reserved value in Device Recovery Status field (byte 0, bits 0-3).
    RecoveryStatusInvalidStatus,
    /// RECOVERY_STATUS: image_index exceeds 4-bit range (0-15).
    RecoveryStatusImageIndexOutOfRange,
    /// INDIRECT_CTRL: IMO is not 4-byte aligned (bits 1:0 must be zero).
    IndirectCtrlImoNotAligned,
    /// INDIRECT_STATUS: reserved CMS region type value (byte 1, bits 0-2).
    IndirectStatusInvalidCmsRegionType,
    /// INDIRECT_FIFO_CTRL: reserved value in Reset field (byte 1).
    IndirectFifoCtrlInvalidReset,
    /// INDIRECT_FIFO_STATUS: reserved CMS region type value (byte 1, bits 0-2).
    IndirectFifoStatusInvalidRegionType,
    /// DEVICE_STATUS: reserved value in Device Status field (byte 0).
    DeviceStatusInvalidStatus,
    /// DEVICE_STATUS: reserved value in Protocol Error field (byte 1).
    DeviceStatusInvalidProtocolError,
    /// DEVICE_STATUS: vendor status exceeds maximum length of 248 bytes.
    DeviceStatusVendorStatusTooLong,
    /// DEVICE_STATUS: heartbeat value exceeds 12-bit range (0-4095).
    DeviceStatusHeartbeatOutOfRange,
    /// DEVICE_STATUS: VendorSpecific recovery reason code is not in range 0x80-0xFF.
    DeviceStatusInvalidVendorReasonCode,
    /// HW_STATUS: reserved or out-of-range composite temperature value.
    HwStatusInvalidCompositeTemp,
    /// HW_STATUS: vendor-specific HW status exceeds maximum length of 251 bytes.
    HwStatusVendorStatusTooLong,
    /// DEVICE_ID: reserved descriptor type value (byte 0).
    DeviceIdInvalidDescriptorType,
    /// DEVICE_ID: vendor-specific string exceeds maximum length of 231 bytes.
    DeviceIdVendorStringTooLong,
    /// The transport timed out awaiting an operation.
    TransportTimeout,
    /// The transport encountered an error within the underlying medium.  The contained value is a
    /// transport medium specific error code.
    TransportError(u8),
    /// A CMS region buffer is empty or its length is not a multiple of 4.
    InvalidCmsBufferSize,
    /// The number of CMS regions provided exceeds the number supported by the OCP Protocol.
    InvalidCmdBufferCount,
    /// When indirect regions are provided, CMS index 0 must be a CodeSpace region.
    IndirectCms0NotCodeSpace,
    /// Two or more CMS regions share the same index.
    DuplicateCmsIndex,
}

/// Errors returned by CMS region operations.
#[derive(Debug, Clone, Copy, PartialEq, Eq, Structural)]
pub enum CmsError {
    /// Attempted to write to a read-only region.
    ReadOnly,
    /// Attempted to read from a write-only region.
    WriteOnly,
    /// Attempted to push into a full FIFO.
    FifoFull,
    /// Attempted to pop from an empty FIFO.
    FifoEmpty,
    /// Attempted a transaction on a polling region that is not ready.
    PollingNotReady,
}

} // verus!
