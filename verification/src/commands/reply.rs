//! The short messages by which the bot answers in chat.
use vstd::prelude::*;
use vstd::string::StringExecFns;
use serenity::model::id::ChannelId as PlatformChannelId;
use serenity::model::mention::Mentionable;
use crate::errors::ErrorKind;
use crate::ids::ChannelId;
use crate::utils::text::{decimal, decimal_text};

verus! {

/// One answer of the bot.
#[derive(Clone, Copy, Debug, PartialEq, Eq, Hash, Structural)]
pub enum Reply {
    NotInVoiceChannel,
    Joined(ChannelId),
    JoinFailed,
    /// The platform's own account of the failure follows this text.
    LeaveFailed,
    LeftVoiceChannel,
    Pong,
    SoundNameRequired,
    Refused,
    SourceFailed,
    PageIndexRequired,
    PageNotFound,
    NotAString,
    NotEvenAString,
    SirenUsage,
    SirenUnknown,
    UrlRequired,
    UrlInvalid,
    PlayingSong,
    NotInVoiceToPlay,
    /// The place, counted from 1, that a track got in the play order.
    AddedToQueue(usize),
    /// The number of tracks that still wait.
    Skipped(usize),
    QueueCleared,
    Muted,
    Unmuted,
}

/// The mention of the channel `id`, as chat shows it.
pub open spec fn mention(id: u64) -> Seq<char> {
    "<#"@ + decimal(id as nat) + ">"@
}

/// `Mentionable::mention` of serenity on a channel's id, written out: the
/// id in decimal between `<#` and `>`.
#[verifier::external_body]
fn mention_channel(id: u64) -> (text: String)
    ensures
        text@ == mention(id),
{
    PlatformChannelId(id).mention().to_string()
}

impl Reply {
    /// What the answer reads as.
    pub open spec fn text(self) -> Seq<char> {
        match self {
            Reply::NotInVoiceChannel => "Not in a voice channel"@,
            Reply::Joined(channel) => "Joined "@ + mention(channel.0),
            Reply::JoinFailed => "Error joining the channel"@,
            Reply::LeaveFailed => "Failed: "@,
            Reply::LeftVoiceChannel => "Left voice channel"@,
            Reply::Pong => "Pong!"@,
            Reply::SoundNameRequired => "Sound name required! Use the \"sounds\" command to get a list of all the sounds."@,
            Reply::Refused => "uhhhh no"@,
            Reply::SourceFailed => "Error sourcing ffmpeg"@,
            Reply::PageIndexRequired => "Command requires a page index greater than 0."@,
            Reply::PageNotFound => "Page not found"@,
            Reply::NotAString => "Not a string???"@,
            Reply::NotEvenAString => "Not even a string???😤😤😤"@,
            Reply::SirenUsage => "Usage: .siren <tense|taci> <repeat count>"@,
            Reply::SirenUnknown => "Stiu doar tense si taci"@,
            Reply::UrlRequired => "Must provide a URL to a video or audio"@,
            Reply::UrlInvalid => "Must provide a valid URL"@,
            Reply::PlayingSong => "Playing song"@,
            Reply::NotInVoiceToPlay => "Not in a voice channel to play in"@,
            Reply::AddedToQueue(position) => "Added song to queue: position "@ + decimal(
                position as nat,
            ),
            Reply::Skipped(remaining) => "Song skipped: "@ + decimal(remaining as nat)
                + " in queue."@,
            Reply::QueueCleared => "Queue cleared."@,
            Reply::Muted => "Gata 😔"@,
            Reply::Unmuted => "😊"@,
        }
    }

    /// The kind of failure that the answer tells of, if it tells of one.
    pub open spec fn failure_kind(self) -> Option<ErrorKind> {
        match self {
            Reply::NotInVoiceChannel | Reply::NotInVoiceToPlay => Some(ErrorKind::NotConnected),
            Reply::JoinFailed => Some(ErrorKind::ConnectionFailed),
            Reply::LeaveFailed => Some(ErrorKind::DisconnectFailed),
            Reply::SourceFailed => Some(ErrorKind::ResolveError),
            _ => None,
        }
    }

    /// The kind of failure that the answer tells of, if it tells of one.
    pub fn failure(self) -> (kind: Option<ErrorKind>)
        ensures
            kind == self.failure_kind(),
    {
        match self {
            Reply::NotInVoiceChannel | Reply::NotInVoiceToPlay => Some(ErrorKind::NotConnected),
            Reply::JoinFailed => Some(ErrorKind::ConnectionFailed),
            Reply::LeaveFailed => Some(ErrorKind::DisconnectFailed),
            Reply::SourceFailed => Some(ErrorKind::ResolveError),
            _ => None,
        }
    }

    /// Whether the answer is addressed to the author of the command rather
    /// than said into the channel.
    pub open spec fn is_addressed(self) -> bool {
        self == Reply::NotInVoiceChannel || self == Reply::NotEvenAString || self
            == Reply::SirenUsage || self == Reply::SirenUnknown
    }

    /// Whether the answer is addressed to the author of the command rather
    /// than said into the channel.
    pub fn addressed(self) -> (b: bool)
        ensures
            b == self.is_addressed(),
    {
        match self {
            Reply::NotInVoiceChannel
            | Reply::NotEvenAString
            | Reply::SirenUsage
            | Reply::SirenUnknown => true,
            _ => false,
        }
    }

    /// The answer as text.
    pub fn say(self) -> (text: String)
        ensures
            text@ == self.text(),
    {
        match self {
            Reply::NotInVoiceChannel => String::from_str("Not in a voice channel"),
            Reply::Joined(channel) => {
                let mut text = String::from_str("Joined ");
                text.append(mention_channel(channel.0).as_str());
                text
            },
            Reply::JoinFailed => String::from_str("Error joining the channel"),
            Reply::LeaveFailed => String::from_str("Failed: "),
            Reply::LeftVoiceChannel => String::from_str("Left voice channel"),
            Reply::Pong => String::from_str("Pong!"),
            Reply::SoundNameRequired => String::from_str(
                "Sound name required! Use the \"sounds\" command to get a list of all the sounds.",
            ),
            Reply::Refused => String::from_str("uhhhh no"),
            Reply::SourceFailed => String::from_str("Error sourcing ffmpeg"),
            Reply::PageIndexRequired => String::from_str(
                "Command requires a page index greater than 0.",
            ),
            Reply::PageNotFound => String::from_str("Page not found"),
            Reply::NotAString => String::from_str("Not a string???"),
            Reply::NotEvenAString => String::from_str("Not even a string???😤😤😤"),
            Reply::SirenUsage => String::from_str("Usage: .siren <tense|taci> <repeat count>"),
            Reply::SirenUnknown => String::from_str("Stiu doar tense si taci"),
            Reply::UrlRequired => String::from_str("Must provide a URL to a video or audio"),
            Reply::UrlInvalid => String::from_str("Must provide a valid URL"),
            Reply::PlayingSong => String::from_str("Playing song"),
            Reply::NotInVoiceToPlay => String::from_str("Not in a voice channel to play in"),
            Reply::AddedToQueue(position) => {
                let mut text = String::from_str("Added song to queue: position ");
                text.append(decimal_text(position as u64).as_str());
                text
            },
            Reply::Skipped(remaining) => {
                let mut text = String::from_str("Song skipped: ");
                text.append(decimal_text(remaining as u64).as_str());
                text.append(" in queue.");
                text
            },
            Reply::QueueCleared => String::from_str("Queue cleared."),
            Reply::Muted => String::from_str("Gata 😔"),
            Reply::Unmuted => String::from_str("😊"),
        }
    }
}

} // verus!
