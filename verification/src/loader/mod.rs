//! The boot loader: kernel arguments, the resume check and the hand-over to
//! the kernel.

pub mod args;
pub mod bootconfig;
pub mod check;
pub mod config_laws;
pub mod entry;
pub mod memory;
pub mod murmur3;
pub mod resume;
pub mod sequence;
pub mod sequence_laws;
