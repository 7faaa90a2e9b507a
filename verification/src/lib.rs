//! A radio-directory companion: the message alphabets spoken between a client
//! and the local playback server, the rules by which the server picks a
//! directory mirror and answers requests, and the commands by which it drives
//! an external media player.
//!
//! The library decides; it does not act. Sockets, name resolution, HTTP and
//! child processes live with the caller, which performs the actions these
//! functions hand out and reports what came of them.

pub mod text;
pub mod player;
pub mod protocol;
pub mod codec;
pub mod search;
pub mod mirror;
pub mod connection;
pub mod session;
pub mod chooser;
