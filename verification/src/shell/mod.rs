//! Shell commands: what a command line asks for.

pub mod env;
pub mod text;
pub mod usb;
pub mod vibe;
