//! The integrator's side of the recovery state machine: which optional
//! protocol features the device offers, and the callbacks that supply
//! vendor-defined data.

use vstd::prelude::*;

use crate::bits::{bit_of_u8, get_bit_u8, put_bit_u8, with_bit_u8};
use crate::error::OcpError;
use crate::protocol::device_reset::DeviceReset;
use crate::protocol::hw_status::HwStatus;

verus! {

/// The optional protocol capabilities a device supports; each bit fills one
/// bit of the PROT_CAP capabilities.
#[derive(Debug, Clone, Copy, PartialEq, Eq, Structural)]
pub struct VendorCapabilities(pub u8);

impl VendorCapabilities {
    /// Bit 0: reported as PROT_CAP bit 1.
    pub fn forced_recovery(&self) -> (r: bool)
        ensures
            r == bit_of_u8(self.0, 0),
    {
        get_bit_u8(self.0, 0)
    }

    /// Sets bit 0.
    pub fn set_forced_recovery(&mut self, value: bool)
        ensures
            final(self).0 == with_bit_u8(old(self).0, 0, value),
    {
        self.0 = put_bit_u8(self.0, 0, value);
    }

    /// Bit 1: reported as PROT_CAP bit 2.
    pub fn mgmt_reset(&self) -> (r: bool)
        ensures
            r == bit_of_u8(self.0, 1),
    {
        get_bit_u8(self.0, 1)
    }

    /// Sets bit 1.
    pub fn set_mgmt_reset(&mut self, value: bool)
        ensures
            final(self).0 == with_bit_u8(old(self).0, 1, value),
    {
        self.0 = put_bit_u8(self.0, 1, value);
    }

    /// Bit 2: reported as PROT_CAP bit 3.
    pub fn device_reset(&self) -> (r: bool)
        ensures
            r == bit_of_u8(self.0, 2),
    {
        get_bit_u8(self.0, 2)
    }

    /// Sets bit 2.
    pub fn set_device_reset(&mut self, value: bool)
        ensures
            final(self).0 == with_bit_u8(old(self).0, 2, value),
    {
        self.0 = put_bit_u8(self.0, 2, value);
    }

    /// Bit 3: reported as PROT_CAP bit 8.
    pub fn interface_isolation(&self) -> (r: bool)
        ensures
            r == bit_of_u8(self.0, 3),
    {
        get_bit_u8(self.0, 3)
    }

    /// Sets bit 3.
    pub fn set_interface_isolation(&mut self, value: bool)
        ensures
            final(self).0 == with_bit_u8(old(self).0, 3, value),
    {
        self.0 = put_bit_u8(self.0, 3, value);
    }

    /// Bit 4: reported as PROT_CAP bit 9.
    pub fn hardware_status(&self) -> (r: bool)
        ensures
            r == bit_of_u8(self.0, 4),
    {
        get_bit_u8(self.0, 4)
    }

    /// Sets bit 4.
    pub fn set_hardware_status(&mut self, value: bool)
        ensures
            final(self).0 == with_bit_u8(old(self).0, 4, value),
    {
        self.0 = put_bit_u8(self.0, 4, value);
    }

    /// Bit 5: reported as PROT_CAP bit 10.
    pub fn vendor_command(&self) -> (r: bool)
        ensures
            r == bit_of_u8(self.0, 5),
    {
        get_bit_u8(self.0, 5)
    }

    /// Sets bit 5.
    pub fn set_vendor_command(&mut self, value: bool)
        ensures
            final(self).0 == with_bit_u8(old(self).0, 5, value),
    {
        self.0 = put_bit_u8(self.0, 5, value);
    }
}

/// Vendor-specific behavior supplied by the integrator.
///
/// Each query the state machine makes has a spec function beside it that
/// names what the implementation answers, so that the state machine's
/// contracts can say what it does with the answer. A verified
/// implementation defines these to meet the queries' contracts; the
/// defaults name no particular value.
pub trait VendorHandler {
    /// The capabilities that `capabilities` reports.
    closed spec fn spec_capabilities(&self) -> VendorCapabilities {
        arbitrary()
    }

    /// Report which optional protocol capabilities the device supports.
    fn capabilities(&self) -> (r: VendorCapabilities)
        ensures
            r == self.spec_capabilities(),
    ;

    /// Execute a device reset (called on DEVICE_RESET write with non-zero control).
    fn execute_reset(&mut self, reset: &DeviceReset);

    /// Handle a VENDOR command (cmd=0x2C) write.
    fn handle_vendor_write(&mut self, data: &[u8]) -> Result<(), OcpError>;

    /// Handle a VENDOR command (cmd=0x2C) read.
    fn handle_vendor_read(&self, buf: &mut [u8]) -> Result<usize, OcpError>;

    /// The vendor status bytes that `vendor_device_status` supplies.
    closed spec fn spec_vendor_status(&self) -> Seq<u8> {
        arbitrary()
    }

    /// Supply vendor status bytes for DEVICE_STATUS into the front of `buf`
    /// and return how many were written: all of them, or as many as fit.
    fn vendor_device_status(&self, buf: &mut [u8]) -> (n: usize)
        ensures
            n <= final(buf)@.len(),
            final(buf)@.len() == old(buf)@.len(),
            n == (if self.spec_vendor_status().len() <= old(buf)@.len() {
                self.spec_vendor_status().len()
            } else {
                old(buf)@.len()
            }),
            final(buf)@.subrange(0, n as int) == self.spec_vendor_status().take(n as int),
    ;

    /// The heartbeat that `heartbeat` reports. It is a function of the
    /// handler's state: two calls on a handler that has not changed in
    /// between report the same value.
    closed spec fn spec_heartbeat(&self) -> u16 {
        arbitrary()
    }

    /// Return the current heartbeat counter (DEVICE_STATUS bytes 4-5, 12-bit).
    fn heartbeat(&self) -> (r: u16)
        ensures
            r == self.spec_heartbeat(),
    ;

    /// The snapshot that `hw_status` returns.
    closed spec fn spec_hw_status(&self) -> HwStatus<'_> {
        arbitrary()
    }

    /// Return the current HW_STATUS snapshot (cmd=0x28).
    fn hw_status(&self) -> (r: HwStatus<'_>)
        ensures
            r == self.spec_hw_status(),
    ;
}

} // verus!
