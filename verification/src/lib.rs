//! An interactive picker over a shell's command history: a scrollable,
//! paginated list-navigation core plus the per-dialect decoding of history
//! lines into commands.
//!
//! The selection engine owns the command list and the cursor; every
//! navigation command is a clamped, non-panicking index move, and the
//! visible window it computes always holds the cursor. The shell module
//! decodes fish, bash and zsh history lines into plain commands and decides
//! the dialect from a description of the parent process.

pub mod selection;
pub mod shell;

pub use selection::App;
pub use selection::NavCommand;
pub use selection::Row;
pub use selection::SessionState;
pub use shell::HistoryError;
pub use shell::Shell;
