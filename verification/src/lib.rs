//! A modal, terminal-resident text viewer: a line store, an editor state
//! machine (cursor, viewport, mode), and the text composition for the
//! two-pass redraw (viewport rows plus a status line).
//!
//! This crate holds the verified core: coordinate math, boundary clamping,
//! mode-dependent event interpretation, and the rendered text of each frame.
//! Terminal I/O (raw mode, the alternate screen, styled drawing, key-event
//! decoding) lives outside, behind plain values.
//!
//! Insert mode is deliberately ephemeral: `AddChar` and `NewLine` move the
//! cursor (and the caller draws the character), but nothing is written back
//! into the line store, so a later line query returns the loaded content.

pub mod buffer;
pub mod editor;
pub mod render;

pub use buffer::Buffer;
pub use editor::Action;
pub use editor::Editor;
pub use editor::Input;
pub use editor::Key;
pub use editor::Mode;
