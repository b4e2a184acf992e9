//! Message-routing core of a chat bot.
//!
//! Given a raw inbound event payload, the core decodes it into a normalized
//! message record, filters it down to genuine user chat messages, matches the
//! message text against a registry of command patterns, and invokes every
//! matching handler with a per-invocation reply context and the match's
//! capture groups.

pub mod dispatch;
pub mod errors;
pub mod handler;
pub mod json;
pub mod message;
pub mod pattern;
pub mod registry;
pub mod reply;
mod strutil;
pub mod users;
