//! The logic of a small chat bot: how a message is routed to a command, how
//! commands are gated and rate limited, and what each command answers.

pub mod arguments;
pub mod buckets;
pub mod commands;
pub mod config;
pub mod dispatch;
pub mod distance;
pub mod events;
pub mod laws;
pub mod platform;
pub mod registry;
pub mod routing;
pub mod standard;
pub mod text;
