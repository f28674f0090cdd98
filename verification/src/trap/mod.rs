//! Kernel entry: interrupt masking, trap classification and dispatch.

pub mod dispatch;
pub mod exception;
pub mod irq;
pub mod laws;
pub mod syscall;
