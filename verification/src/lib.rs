//! Control plane for a load-generation engine: a line-oriented command
//! service that classifies operator input, relays validated commands to the
//! coordinating process over a shared bounded channel, and formats replies.
//!
//! The library is byte-oriented: operator input arrives as raw socket chunks
//! and every reply is produced as exact bytes, so the whole protocol path is
//! verified. Socket handling itself lives outside the library.

pub mod config;
pub mod gateway;
pub mod grammar;
pub mod messages;
pub mod numbers;
pub mod session;
pub mod text;
