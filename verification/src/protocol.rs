//! Wire formats of the OCP recovery commands.

pub mod recovery_status;
pub mod device_reset;
pub mod recovery_ctrl;
pub mod indirect_fifo_ctrl;
pub mod hw_status;
pub mod indirect_fifo_status;
pub mod prot_cap;
pub mod device_id;
pub mod device_status;
pub mod indirect_ctrl;
pub mod indirect_status;
