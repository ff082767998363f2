//! Component memory spaces (CMS): the regions that recovery images are
//! pushed into and logs are read from, reached either through a memory
//! window (INDIRECT_*) or through a FIFO (INDIRECT_FIFO_*).


pub mod slice_indirect;
pub mod slice_fifo;
