//! Core logic of a quick-capture desktop shell: a global keyboard shortcut
//! reveals and focuses a hidden main window and notifies its content layer,
//! and a hide command puts the window back into the background without
//! destroying it.
//!
//! The GUI framework owns the real window and the OS-level shortcut; this
//! crate owns the decisions. It models the observable state of the shell
//! (whether the window exists, is visible, is focused, and whether the
//! shortcut registration succeeded) and computes, for each incoming event,
//! the next state together with the advisory requests that the host should
//! perform. The surrounding binary performs those requests and feeds events
//! back in.

pub mod shell;
pub mod window;
