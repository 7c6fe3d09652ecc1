//! A verified model of a minimal interactive command shell: a character-cell
//! display driver, a keyboard scancode decoder, a line editor with bounded
//! history, and a command dispatcher.
//!
//! All hardware access (port I/O, the memory-mapped frame buffer) is kept
//! outside this crate; the library computes the full display contents, cursor
//! position and hardware actions as plain values.

pub mod commands;
pub mod editor;
pub mod keyboard;
pub mod shell;
pub mod vga;
