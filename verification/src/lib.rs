//! Decision core of a terminal-multiplexer auto-lock controller.
//!
//! The controller watches which command runs in the focused pane and
//! switches the multiplexer's input mode between `Normal` and `Locked`:
//! when a configured trigger command (an editor, a pager) is running,
//! input is locked so multiplexer keybindings do not leak into it, and
//! it is unlocked again when that command exits.
//!
//! Everything here is pure decision logic over plain values.  The host
//! glue (event delivery, timers, the actual mode-switch call) lives
//! outside: it hands events in and performs the actions handed back.

pub mod text;
pub mod classify;
pub mod config;
pub mod focus;
pub mod guard;
pub mod controller;
