//! Voice sessions and playback queues for a chat bot that joins voice calls,
//! one session per guild, together with the decisions behind the bot's chat
//! commands and platform events.
//!
//! Everything here is sequential: a caller that serves several tasks puts
//! the registry behind its own lock and applies one operation at a time.
pub mod ids;
pub mod queue;
pub mod errors;
pub mod session;
pub mod registry;
pub mod broker;
pub mod utils;
pub mod cache;
pub mod models;
pub mod commands;
pub mod manager;
pub mod event_handlers;
