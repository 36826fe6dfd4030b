//! What the bot does when it is ready, when a voice state changes and when
//! a message mentions it.
use vstd::prelude::*;
use vstd::string::StringExecFns;
use crate::broker::{Greeting, calls_for_greeting, due_all, kept_all};
use crate::commands::reply::Reply;
use crate::errors::{ErrorKind, ResolveError};
use crate::ids::{ChannelId, MemberId, TenantId, TrackHandle};
use crate::manager::{Effects, VoiceManager, session_of};
use crate::session::{SessionState, ToggleStatus, stopped};
use crate::utils::diacritics::{clean_all, cleaned};
use crate::utils::text::{contains, lowercased, occurs_in, to_lowercase};

verus! {

/// The bot's handler of platform events.
pub struct MainEventHandler;

/// How long the bot waits before it greets, in milliseconds.
pub const GREETING_DELAY_MS: u64 = 1000;

/// How loud the greeting is, in hundredths of full volume.
pub const GREETING_VOLUME_PERCENT: u8 = 25;

/// The greeting and how to play it: wait, then play the greeting sound at
/// the given volume.
#[derive(Clone, Copy, Debug, PartialEq, Eq, Structural)]
pub struct GreetingPlan {
    pub greeting: Greeting,
    pub delay_ms: u64,
    pub volume_percent: u8,
}

/// What a message that mentions the bot asks for.
#[derive(Clone, Copy, Debug, PartialEq, Eq, Structural)]
pub enum MessageStep {
    /// Nothing.
    Ignore,
    /// Say the reply, then mute the bot with `mute`.
    Mute(Reply),
    /// Say the reply, then unmute the bot with `unmute`.
    Unmute(Reply),
}

/// How a message is read once it is in lower case: the bot is told to be
/// quiet, or told to speak again, in words that are found with or without
/// their accents. A message that does not mention the bot is not read.
pub open spec fn message_decides(mentions_me: bool, lowered: Seq<char>) -> MessageStep {
    if !mentions_me {
        MessageStep::Ignore
    } else if occurs_in(cleaned(lowered), "tacusi"@) {
        MessageStep::Mute(Reply::Muted)
    } else if occurs_in(cleaned(lowered), "glumesc"@) {
        MessageStep::Unmute(Reply::Unmuted)
    } else {
        MessageStep::Ignore
    }
}

/// The name of the sound that greets.
pub fn greeting_sound() -> (name: &'static str)
    ensures
        name@ == "Aloooo.mp3"@,
{
    "Aloooo.mp3"
}

/// What a message asks for, given whether it mentions the bot and its text
/// in lower case.
pub fn message_reaction(mentions_me: bool, lowered: &str) -> (step: MessageStep)
    ensures
        step == message_decides(mentions_me, lowered@),
{
    if !mentions_me {
        return MessageStep::Ignore;
    }
    let without_diacritics = clean_all(lowered);
    if contains(without_diacritics.as_str(), "tacusi") {
        MessageStep::Mute(Reply::Muted)
    } else if contains(without_diacritics.as_str(), "glumesc") {
        MessageStep::Unmute(Reply::Unmuted)
    } else {
        MessageStep::Ignore
    }
}

impl MainEventHandler {
    /// The line for the log once the bot, under the name `name`, is
    /// connected to the platform.
    pub fn ready(&self, name: &str) -> (line: String)
        ensures
            line@ == name@ + " is connected!"@,
    {
        let mut line = String::from_str(name);
        line.append(" is connected!");
        line
    }

    /// Takes the platform's report that `member` of `tenant_id` was in
    /// `old_channel` and is now in `new_channel`.
    ///
    /// The greeting is due when the bot itself has newly come into the
    /// channel that its session of the guild has. It is not due for a
    /// change that does not end in that channel, for another participant,
    /// for a participant that has left voice altogether, or for a report
    /// that repeats the channel.
    pub fn voice_state_update(
        &self,
        manager: &VoiceManager,
        tenant_id: TenantId,
        member: MemberId,
        old_channel: Option<ChannelId>,
        new_channel: Option<ChannelId>,
    ) -> (plan: Option<GreetingPlan>)
        requires
            manager.wf(),
        ensures
            plan is Some <==> calls_for_greeting(
                manager.self_member(),
                session_of(manager.sessions(), tenant_id),
                member,
                old_channel,
                new_channel,
            ),
            plan matches Some(p) ==> p.greeting.tenant_id == tenant_id && Some(
                p.greeting.channel_id,
            ) == new_channel && p.delay_ms == GREETING_DELAY_MS && p.volume_percent
                == GREETING_VOLUME_PERCENT,
    {
        match manager.on_voice_state_changed(tenant_id, member, old_channel, new_channel) {
            Some(greeting) => Some(
                GreetingPlan {
                    greeting,
                    delay_ms: GREETING_DELAY_MS,
                    volume_percent: GREETING_VOLUME_PERCENT,
                },
            ),
            None => None,
        }
    }

    /// Takes a chat message: `mentions_me` says whether it mentions the
    /// bot, `content` is its text.
    pub fn message(&self, mentions_me: bool, content: &str) -> (step: MessageStep)
        ensures
            step == message_decides(mentions_me, lowercased(content@)),
    {
        let lowered = to_lowercase(content);
        message_reaction(mentions_me, lowered.as_str())
    }
}

/// The report of `play_now` for the greeting.
pub open spec fn greeted(effects: Option<Effects>) -> Result<Effects, ErrorKind> {
    match effects {
        Some(fx) => Ok(fx),
        None => Err(ErrorKind::NotConnected),
    }
}

/// The greeting, second half: `resolved` is what the resolver made of the
/// greeting sound. A track interrupts what plays and starts at once. A
/// failure stays here: whether the sound could not be produced or the
/// session is gone, nothing happens and nothing is handed on, so that the
/// delivery of events to other guilds goes on. The caller may log it.
pub fn greeting_resolved(
    manager: &mut VoiceManager,
    tenant_id: TenantId,
    resolved: Result<TrackHandle, ResolveError>,
) -> (effects: Option<Effects>)
    requires
        old(manager).wf(),
    ensures
        final(manager).wf(),
        final(manager).self_member() == old(manager).self_member(),
        resolved is Err ==> effects is None && final(manager).sessions() == old(manager).sessions() && final(manager).pending() == old(manager).pending(),
        resolved matches Ok(track) ==> VoiceManager::played_now(
            old(manager),
            final(manager),
            tenant_id,
            track,
            greeted(effects),
        ),
{
    match resolved {
        Err(_) => None,
        Ok(track) => match manager.play_now(tenant_id, track) {
            Ok(effects) => Some(effects),
            Err(_) => None,
        },
    }
}

/// Whether a change of voice state says that the bot is gone from voice in
/// a guild where it has a session.
pub open spec fn bot_is_gone(
    self_member: MemberId,
    session: Option<SessionState>,
    member: MemberId,
    new_channel: Option<ChannelId>,
) -> bool {
    member == self_member && new_channel is None && session is Some
}

/// Takes the platform's report that `member` of `tenant_id` is now in
/// `new_channel`, and discards the guild's session where the report says
/// that the bot itself is in no voice channel any more: its tracks end as
/// stopped and their reactions are called. Any other report changes
/// nothing.
pub fn departed(
    manager: &mut VoiceManager,
    tenant_id: TenantId,
    member: MemberId,
    new_channel: Option<ChannelId>,
) -> (effects: Option<Effects>)
    requires
        old(manager).wf(),
    ensures
        final(manager).wf(),
        final(manager).self_member() == old(manager).self_member(),
        effects is Some <==> bot_is_gone(
            old(manager).self_member(),
            session_of(old(manager).sessions(), tenant_id),
            member,
            new_channel,
        ),
        effects is None ==> final(manager).sessions() == old(manager).sessions() && final(manager).pending() == old(manager).pending(),
        effects matches Some(fx) ==> {
            &&& final(manager).sessions() == old(manager).sessions().remove(tenant_id)
            &&& fx.ended@ == stopped(old(manager).sessions()[tenant_id].play_order())
            &&& fx.started is None
            &&& fx.calls@ == due_all(old(manager).pending(), tenant_id, fx.ended@)
            &&& final(manager).pending() == kept_all(old(manager).pending(), tenant_id, fx.ended@)
        },
{
    if member != manager.member() || new_channel.is_some() {
        return None;
    }
    match manager.leave(tenant_id, Ok(())) {
        Ok(effects) => Some(effects),
        Err(_) => None,
    }
}

/// What `mute` and `unmute` report.
pub open spec fn toggled(status: Option<ToggleStatus>) -> Result<ToggleStatus, ErrorKind> {
    match status {
        Some(s) => Ok(s),
        None => Err(ErrorKind::NotConnected),
    }
}

/// Mutes the bot of `tenant_id`. The platform has to be told exactly when
/// the answer is `Changed`: a bot that is muted already stays so, and a
/// guild without a session has nothing to mute.
pub fn mute(manager: &mut VoiceManager, tenant_id: TenantId) -> (status: Option<ToggleStatus>)
    requires
        old(manager).wf(),
    ensures
        final(manager).wf(),
        final(manager).self_member() == old(manager).self_member(),
        final(manager).pending() == old(manager).pending(),
        VoiceManager::muted(old(manager), final(manager), tenant_id, true, toggled(status)),
{
    match manager.set_mute(tenant_id, true) {
        Ok(status) => Some(status),
        Err(_) => None,
    }
}

/// Unmutes the bot of `tenant_id`. The platform has to be told exactly when
/// the answer is `Changed`.
pub fn unmute(manager: &mut VoiceManager, tenant_id: TenantId) -> (status: Option<ToggleStatus>)
    requires
        old(manager).wf(),
    ensures
        final(manager).wf(),
        final(manager).self_member() == old(manager).self_member(),
        final(manager).pending() == old(manager).pending(),
        VoiceManager::muted(old(manager), final(manager), tenant_id, false, toggled(status)),
{
    match manager.set_mute(tenant_id, false) {
        Ok(status) => Some(status),
        Err(_) => None,
    }
}

} // verus!
