pub mod escrow;
pub mod fd;
pub mod signal;
pub mod source;
