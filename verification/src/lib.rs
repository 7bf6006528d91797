//! Core of a modal terminal text editor: the key-to-action translation
//! tables, the cursor/viewport session state machine, and the status-line
//! composition. Terminal I/O (raw mode, alternate screen, reading key
//! events, painting styled text) lives outside this crate; the core works
//! on plain values only.

pub mod input;
pub mod session;
pub mod status;
