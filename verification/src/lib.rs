//! The logic behind a desktop monitor of coding-assistant sessions: which
//! terminal or editor a session's process runs in (by the naming rules of
//! macOS, Windows and Linux), which command-line launcher opens a project in
//! it, how the process tree is walked, how `wmic` output is read, and how
//! the session actions report their outcomes. Every function here is
//! verified with Verus; the commands, files and processes are handled by the
//! application around this library.
pub mod actions;
pub mod apps;
pub mod conversation;
pub mod linux;
pub mod macos;
pub mod number;
pub mod text;
pub mod windows;

pub use conversation::{greet, Conversation, ConversationMessage};
