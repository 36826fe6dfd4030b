//! Joining and leaving a voice channel, and the ping.
use vstd::prelude::*;
use crate::commands::answer::Answer;
use crate::commands::reply::Reply;
use crate::errors::{ConnectError, ConnectionHandle, DisconnectError, ErrorKind};
use crate::ids::{ChannelId, TenantId};
use crate::broker::{due_all, kept_all};
use crate::manager::{VoiceManager, joined_table};
use crate::session::stopped;

verus! {

/// The commands that every guild needs: `join`, `leave`, `ping`.
pub struct Essentials;

/// What `join` asks for.
#[derive(Clone, Copy, Debug, PartialEq, Eq, Structural)]
pub enum JoinStep {
    /// Say this; there is nothing to join.
    Reply(Reply),
    /// Link up with this channel, then call `join_linked`.
    Connect(ChannelId),
}

/// What `leave` asks for.
#[derive(Clone, Copy, Debug, PartialEq, Eq, Structural)]
pub enum LeaveStep {
    /// Say this; there is nothing to leave.
    Reply(Reply),
    /// Have the platform leave the channel, then call `leave_unlinked`.
    Disconnect,
}

/// The command to join the author's voice channel, first half:
/// `author_channel` is the voice channel that the author of the command is
/// in. An author outside any voice channel is told so.
pub fn join(author_channel: Option<ChannelId>) -> (step: JoinStep)
    ensures
        step == (match author_channel {
            Some(connect_to) => JoinStep::Connect(connect_to),
            None => JoinStep::Reply(Reply::NotInVoiceChannel),
        }),
{
    match author_channel {
        Some(connect_to) => JoinStep::Connect(connect_to),
        None => JoinStep::Reply(Reply::NotInVoiceChannel),
    }
}

/// The command to join, second half: `link` is what the platform answered
/// to the attempt to join `connect_to`.
pub fn join_linked(
    manager: &mut VoiceManager,
    tenant_id: TenantId,
    connect_to: ChannelId,
    link: Result<ConnectionHandle, ConnectError>,
) -> (reply: Reply)
    requires
        old(manager).wf(),
    ensures
        final(manager).wf(),
        final(manager).pending() == old(manager).pending(),
        final(manager).self_member() == old(manager).self_member(),
        link is Ok ==> reply == Reply::Joined(connect_to) && final(manager).sessions()
            == joined_table(old(manager).sessions(), tenant_id, connect_to),
        link is Err ==> reply == Reply::JoinFailed && final(manager).sessions() == old(manager).sessions(),
{
    match manager.join(tenant_id, connect_to, link) {
        Ok(_) => Reply::Joined(connect_to),
        Err(_) => Reply::JoinFailed,
    }
}

/// The command to leave the voice channel, first half. A guild without a
/// session is told that there is nothing to leave.
pub fn leave(manager: &VoiceManager, tenant_id: TenantId) -> (step: LeaveStep)
    requires
        manager.wf(),
    ensures
        step == (if manager.sessions().contains_key(tenant_id) {
            LeaveStep::Disconnect
        } else {
            LeaveStep::Reply(Reply::NotInVoiceChannel)
        }),
{
    if manager.is_connected(tenant_id) {
        LeaveStep::Disconnect
    } else {
        LeaveStep::Reply(Reply::NotInVoiceChannel)
    }
}

/// The command to leave, second half: `unlink` is what the platform
/// answered to the attempt to leave. Where it has left, the session is
/// discarded with all its tracks; where it could not, the session stays and
/// the failure is reported.
pub fn leave_unlinked(
    manager: &mut VoiceManager,
    tenant_id: TenantId,
    unlink: Result<(), DisconnectError>,
) -> (answer: Answer)
    requires
        old(manager).wf(),
    ensures
        final(manager).wf(),
        final(manager).self_member() == old(manager).self_member(),
        !old(manager).sessions().contains_key(tenant_id) ==> answer.reply == Some(
            Reply::NotInVoiceChannel,
        ),
        old(manager).sessions().contains_key(tenant_id) && unlink is Err ==> answer.reply
            == Some(Reply::LeaveFailed),
        old(manager).sessions().contains_key(tenant_id) && unlink is Ok ==> answer.reply
            == Some(Reply::LeftVoiceChannel),
        answer.effects is Some <==> old(manager).sessions().contains_key(tenant_id)
            && unlink is Ok,
        answer.effects is None ==> final(manager).sessions() == old(manager).sessions() && final(manager).pending() == old(manager).pending(),
        answer.effects matches Some(effects) ==> {
            &&& final(manager).sessions() == old(manager).sessions().remove(tenant_id)
            &&& effects.ended@ == stopped(old(manager).sessions()[tenant_id].play_order())
            &&& effects.started is None
            &&& effects.calls@ == due_all(old(manager).pending(), tenant_id, effects.ended@)
            &&& final(manager).pending() == kept_all(
                old(manager).pending(),
                tenant_id,
                effects.ended@,
            )
        },
{
    match manager.leave(tenant_id, unlink) {
        Ok(effects) => Answer { reply: Some(Reply::LeftVoiceChannel), effects: Some(effects) },
        Err(ErrorKind::NotConnected) => Answer::saying(Reply::NotInVoiceChannel),
        Err(_) => Answer::saying(Reply::LeaveFailed),
    }
}

/// The command that shows that the bot is alive.
pub fn ping() -> (reply: Reply)
    ensures
        reply == Reply::Pong,
{
    Reply::Pong
}

} // verus!
