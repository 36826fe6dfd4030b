//! What a command hands back: what to say, and what to do about tracks.
use vstd::prelude::*;
use crate::commands::reply::Reply;
use crate::manager::Effects;

verus! {

/// The outcome of a command that has run to its end.
#[derive(Debug, PartialEq, Eq)]
pub struct Answer {
    /// What to say in chat, if anything.
    pub reply: Option<Reply>,
    /// What to do about tracks and reactions, if anything.
    pub effects: Option<Effects>,
}

/// A request to the resolver: decode the sound behind `source`, at once or,
/// where `lazy` is set, only when the track starts to play.
#[derive(Debug, PartialEq, Eq)]
pub struct ResolveRequest {
    /// A path of a sound file or the address of remote media.
    pub source: String,
    pub lazy: bool,
}

impl Answer {
    /// Whether the step that gave this answer did something about tracks.
    pub open spec fn takes_effect(&self) -> bool {
        self.effects is Some
    }

    /// Whether a sequence of clips goes on after the step that gave this
    /// answer: only where the step took its clip in. A clip that could not
    /// be produced ends the sequence, and so does a session that is gone.
    pub fn goes_on(&self) -> (b: bool)
        ensures
            b == self.takes_effect(),
    {
        self.effects.is_some()
    }

    /// An answer that only says something.
    pub fn saying(reply: Reply) -> (a: Answer)
        ensures
            a.reply == Some(reply),
            a.effects is None,
    {
        Answer { reply: Some(reply), effects: None }
    }

    /// An answer that says and does nothing.
    pub fn silent() -> (a: Answer)
        ensures
            a.reply is None,
            a.effects is None,
    {
        Answer { reply: None, effects: None }
    }
}

} // verus!
