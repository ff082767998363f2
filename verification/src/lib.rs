//! A verified implementation of the device side of the OCP Secure Firmware
//! Recovery protocol: the wire formats of its commands, the component memory
//! spaces behind them, and the state machine that answers a recovery agent.
//!
//! Beside it stand the pieces of the firmware build and boot path that the
//! protocol works with: in-memory flash storage, a length-checked copy, and
//! the layout of a firmware bundle's binaries in memory with the linker
//! scripts that place them there.

pub mod bits;
pub mod error;
pub mod protocol;
pub mod cms;
pub mod transport;
pub mod vendor;
pub mod interface;
pub mod checked_copy;
pub mod flash;
pub mod radix;
pub mod manifest;
pub mod ld;
