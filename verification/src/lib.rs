//! Decision logic of a small Matrix chat bot.
//!
//! The bot restores or creates a session, catches up with the server so
//! that old messages are skipped, and then answers a few trigger messages.
//! Everything that talks to the network or the disk lives outside this
//! crate: here are the rules that decide what is asked of the outside
//! world next, each with a proved contract.

pub mod handler;
pub mod handler_laws;
pub mod message;
pub mod quotes;
pub mod session;
pub mod session_format;
pub mod session_laws;
pub mod setup;
pub mod sync;
pub mod sync_laws;
pub mod text;
