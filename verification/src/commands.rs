//! The decisions behind the bot's chat commands.
//!
//! A command never waits for the platform here. Where it needs the
//! platform's work (a link to a channel, a decoded sound), it comes in two
//! halves: the first says what is needed, the second takes what came of it.
pub mod answer;
pub mod essentials;
pub mod funny;
pub mod reply;
pub mod sounds;
