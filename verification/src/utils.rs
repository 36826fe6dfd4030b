//! Helpers that the commands and event handlers share.
pub mod arguments;
pub mod diacritics;
pub mod parse;
pub mod random;
pub mod text;
