//! The bot's configuration.
use vstd::prelude::*;
use vstd::string::StringExecFns;
use crate::models::config_error::ConfigError;

verus! {

/// What the bot needs to know before it can start.
pub struct Config {
    /// The token by which the bot signs in.
    pub bot_token: String,
}

/// The prefix that marks a chat message as a command.
pub fn command_prefix() -> (prefix: &'static str)
    ensures
        prefix@ == "."@,
{
    "."
}

impl Config {
    /// The configuration as one line of text.
    pub open spec fn described(&self) -> Seq<char> {
        "bot_token: "@ + self.bot_token@
    }

    /// The configuration as one line of text.
    pub fn describe(&self) -> (line: String)
        ensures
            line@ == self.described(),
    {
        let mut line = String::from_str("bot_token: ");
        line.append(self.bot_token.as_str());
        line
    }

    /// The configuration to start with: the one that was loaded, or, where
    /// loading failed, one made of the token that the environment gives.
    /// Without either there is nothing to start with, and the failure of
    /// loading is handed back.
    pub fn or_fallback(loaded: Result<Config, ConfigError>, env_token: Option<String>) -> (r:
        Result<Config, ConfigError>)
        ensures
            loaded is Ok ==> r == loaded,
            loaded is Err && env_token is Some ==> r is Ok && r->Ok_0.bot_token == env_token->0,
            loaded is Err && env_token is None ==> r == loaded,
    {
        match loaded {
            Ok(config) => Ok(config),
            Err(why) => match env_token {
                Some(bot_token) => Ok(Config { bot_token }),
                None => Err(why),
            },
        }
    }
}

} // verus!
