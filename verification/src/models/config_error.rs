//! What can go wrong when the configuration is loaded.
use vstd::prelude::*;
use vstd::string::StringExecFns;

verus! {

/// A failure to load the configuration. Each case keeps the reason that the
/// failing step gave, as text.
#[derive(Debug, PartialEq, Eq)]
pub enum ConfigError {
    /// The file could not be opened.
    NotFound { source: String },
    /// The file could not be read.
    ReadFail { source: String },
    /// The file's text is no configuration.
    JsonConvertFail { source: String },
}

impl ConfigError {
    /// What the failure reads as.
    pub open spec fn message_text(&self) -> Seq<char> {
        match self {
            ConfigError::NotFound { source } => "config.json not found. Reason: "@ + source@,
            ConfigError::ReadFail { source } => "Could not read from file. Reason: "@ + source@,
            ConfigError::JsonConvertFail { source } => "Could not convert from JSON to Config. Reason: "@
                + source@,
        }
    }

    /// What the failure reads as.
    pub fn message(&self) -> (text: String)
        ensures
            text@ == self.message_text(),
    {
        match self {
            ConfigError::NotFound { source } => {
                let mut text = String::from_str("config.json not found. Reason: ");
                text.append(source.as_str());
                text
            },
            ConfigError::ReadFail { source } => {
                let mut text = String::from_str("Could not read from file. Reason: ");
                text.append(source.as_str());
                text
            },
            ConfigError::JsonConvertFail { source } => {
                let mut text = String::from_str("Could not convert from JSON to Config. Reason: ");
                text.append(source.as_str());
                text
            },
        }
    }
}

} // verus!
