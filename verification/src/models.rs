//! The bot's configuration and what can go wrong when it is loaded.
pub mod config;
pub mod config_error;
