//! Session manager for tmux: session records, parsing of tmux's list output,
//! and the interactive controller's state machine.

pub mod text;
pub mod tmux;
pub mod tui;
