//! Verified core of a small microkernel system.
//!
//! Three parts carry the trust of the system:
//!
//! - [`trap`]: what the kernel does on a system call, an exception or an
//!   interrupt;
//! - [`loader`]: how the boot loader reads its arguments, tells a clean
//!   suspend from a cold start, and enters the kernel;
//! - [`trng`]: the sequencing of the hardware entropy source.
//!
//! Beside them stand the decisions of a few services and programs:
//! [`ifram`] hands out pages of shared memory, [`shell`] reads command
//! lines, [`edlin`] edits lines, [`mtxchat`] keeps a chat session, [`book`]
//! turns pages, and [`tls`] judges certificates.
//!
//! Nothing here touches hardware or calls a service. Every function takes
//! what was read and returns what is to be done.

pub mod book;
pub mod edlin;
pub mod ifram;
pub mod loader;
pub mod mtxchat;
pub mod shell;
pub mod tls;
pub mod trap;
pub mod trng;
