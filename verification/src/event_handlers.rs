//! The decisions behind the bot's reactions to the platform's events.
pub mod handler;
