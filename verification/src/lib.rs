//! A small line-editing engine: an edit buffer with a byte cursor, a decoder
//! that turns raw terminal bytes into editing commands, a repaint generator
//! for single-line and wrapped multi-line display, a bounded command history
//! with a browsing cursor, and a completion cycler.
//!
//! The library itself performs no I/O: it consumes plain bytes and produces
//! plain bytes, so a thin driver around it owns the terminal.

pub mod buffer;
pub mod completion;
pub mod decode;
pub mod history;
pub mod interaction;
pub mod render;
pub mod session;
