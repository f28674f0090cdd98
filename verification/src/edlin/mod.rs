//! The line editor: a buffer of lines, a cursor, and three modes.

pub mod editor;
pub mod files;
pub mod text;
