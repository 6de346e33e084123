//! Per-guild voice sessions for a chat bot: which guilds hold a voice
//! connection, which track each of them is playing, and what every command
//! decides from that state.
//!
//! The crate performs no I/O. A command is a step function: it reads or
//! updates the [`registry::SessionRegistry`] and answers with the reply to
//! send or the request to make of the voice transport; once the transport
//! has answered, a second function records the outcome.

pub mod commands;
pub mod ids;
pub mod laws;
pub mod notifier;
pub mod registry;
pub mod resolver;
pub mod text;

