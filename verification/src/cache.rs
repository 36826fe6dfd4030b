//! What the bot keeps in memory between commands.
pub mod app_cache;
