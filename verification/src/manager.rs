//! The session manager as the commands and the platform's events see it:
//! the registry of sessions and the broker of reactions, moved together.
use vstd::prelude::*;
use crate::broker::{
    Greeting,
    Notification,
    Registration,
    TrackEventBroker,
    calls_for_greeting,
    due_all,
    ended_among,
    kept_all,
    lemma_kept_all_members,
};
use crate::errors::{ConnectError, ConnectionHandle, DisconnectError, ErrorKind};
use crate::ids::{ChannelId, MemberId, ReactionId, TenantId, TrackHandle};
use crate::registry::VoiceSessionRegistry;
use crate::session::{
    Advance,
    EndCause,
    SessionState,
    ToggleStatus,
    TrackEnd,
    VoiceSession,
    lemma_held_tracks_stay,
    stopped,
};

verus! {

/// What an operation on a session asks of the audio pipeline and of the
/// owners of reactions.
#[derive(Debug, PartialEq, Eq)]
pub struct Effects {
    /// The tracks that left the session, in play order. One that was
    /// stopped has to be halted.
    pub ended: Vec<TrackEnd>,
    /// The track that has to start playing now.
    pub started: Option<TrackHandle>,
    /// The reactions to call, in this order.
    pub calls: Vec<Notification>,
    /// How many tracks wait in the queue afterwards.
    pub remaining_count: usize,
}

/// What the end of the process asks for.
#[derive(Debug, PartialEq, Eq)]
pub struct Shutdown {
    /// The guilds whose connections have to be torn down.
    pub tenants: Vec<TenantId>,
    /// The reactions to call, in this order.
    pub calls: Vec<Notification>,
}

/// The session of `tenant_id` in `table`, if there is one.
pub open spec fn session_of(table: Map<TenantId, SessionState>, tenant_id: TenantId) -> Option<
    SessionState,
> {
    if table.contains_key(tenant_id) {
        Some(table[tenant_id])
    } else {
        None
    }
}

/// Nothing or the one end, as a list.
pub open spec fn ends_of(end: Option<TrackEnd>) -> Seq<TrackEnd> {
    match end {
        Some(e) => seq![e],
        None => Seq::empty(),
    }
}

/// The table after a guild has joined `channel_id`: its session moves
/// there, or is made where the guild had none.
pub open spec fn joined_table(
    table: Map<TenantId, SessionState>,
    tenant_id: TenantId,
    channel_id: ChannelId,
) -> Map<TenantId, SessionState> {
    if table.contains_key(tenant_id) {
        table.insert(tenant_id, table[tenant_id].join(channel_id))
    } else {
        table.insert(tenant_id, SessionState::connected(tenant_id, channel_id))
    }
}

/// Whether every reaction of `pending` waits for a track that the session
/// of its guild holds.
pub open spec fn waits_on_live(table: Map<TenantId, SessionState>, pending: Seq<Registration>) -> bool {
    forall|i: int|
        0 <= i < pending.len() ==> table.contains_key((#[trigger] pending[i]).tenant_id)
            && table[pending[i].tenant_id].holds(pending[i].track)
}

/// Reactions go on waiting for live tracks across an operation on the
/// session of `tenant_id` that ended the tracks `ends`: the other sessions
/// are as they were, and the session holds what it held but for what ended.
proof fn lemma_still_live(
    table: Map<TenantId, SessionState>,
    after: Map<TenantId, SessionState>,
    pending: Seq<Registration>,
    tenant_id: TenantId,
    ends: Seq<TrackEnd>,
)
    requires
        waits_on_live(table, pending),
        forall|t: TenantId|
            t != tenant_id && table.contains_key(t) ==> after.contains_key(t) && after[t]
                == table[t],
        forall|x: TrackHandle|
            table.contains_key(tenant_id) && table[tenant_id].holds(x) && !ended_among(ends, x)
                ==> after.contains_key(tenant_id) && after[tenant_id].holds(x),
    ensures
        waits_on_live(after, kept_all(pending, tenant_id, ends)),
{
    let stays = kept_all(pending, tenant_id, ends);
    assert forall|i: int| 0 <= i < stays.len() implies after.contains_key(
        (#[trigger] stays[i]).tenant_id,
    ) && after[stays[i].tenant_id].holds(stays[i].track) by {
        let r = stays[i];
        lemma_kept_all_members(pending, tenant_id, ends, r);
        let j = choose|j: int| 0 <= j < pending.len() && pending[j] == r;
        assert(table.contains_key(pending[j].tenant_id));
    }
}

/// As `lemma_still_live`, for an operation that took the session of
/// `tenant_id` to `next`.
proof fn lemma_live_after_change(
    table: Map<TenantId, SessionState>,
    next: SessionState,
    pending: Seq<Registration>,
    tenant_id: TenantId,
    ends: Seq<TrackEnd>,
)
    requires
        waits_on_live(table, pending),
        table.contains_key(tenant_id),
        forall|x: TrackHandle|
            table[tenant_id].holds(x) && !ended_among(ends, x) ==> #[trigger] next.holds(x),
    ensures
        waits_on_live(table.insert(tenant_id, next), kept_all(pending, tenant_id, ends)),
{
    lemma_still_live(table, table.insert(tenant_id, next), pending, tenant_id, ends);
}

/// As `lemma_still_live`, for an operation that ended every track of the
/// session of `tenant_id`, whether the session stays, as `next`, or goes.
proof fn lemma_live_after_clearing(
    table: Map<TenantId, SessionState>,
    next: SessionState,
    pending: Seq<Registration>,
    tenant_id: TenantId,
)
    requires
        waits_on_live(table, pending),
        table.contains_key(tenant_id),
        table[tenant_id].wf(),
    ensures
        waits_on_live(
            table.insert(tenant_id, next),
            kept_all(pending, tenant_id, stopped(table[tenant_id].play_order())),
        ),
        waits_on_live(
            table.remove(tenant_id),
            kept_all(pending, tenant_id, stopped(table[tenant_id].play_order())),
        ),
{
    let s = table[tenant_id];
    let ends = stopped(s.play_order());
    assert forall|x: TrackHandle| s.holds(x) implies ended_among(ends, x) by {
        lemma_held_tracks_stay(s, x, ChannelId(0), false, x);
    }
    lemma_still_live(table, table.insert(tenant_id, next), pending, tenant_id, ends);
    lemma_still_live(table, table.remove(tenant_id), pending, tenant_id, ends);
}

/// As `lemma_still_live`, for an operation that replaced or took away the
/// playing track of the session of `tenant_id`, or one that ended nothing.
proof fn lemma_live_after_advance(
    table: Map<TenantId, SessionState>,
    pending: Seq<Registration>,
    tenant_id: TenantId,
    track: TrackHandle,
    cause: EndCause,
)
    requires
        waits_on_live(table, pending),
        table.contains_key(tenant_id),
        table[tenant_id].wf(),
    ensures
        table[tenant_id].is_connected() ==> waits_on_live(
            table.insert(tenant_id, table[tenant_id].play_now(track)),
            kept_all(pending, tenant_id, ends_of(table[tenant_id].ended_by(true, cause))),
        ),
        waits_on_live(
            table.insert(tenant_id, table[tenant_id].skip()),
            kept_all(pending, tenant_id, ends_of(table[tenant_id].ended_by(true, cause))),
        ),
        waits_on_live(
            table.insert(tenant_id, table[tenant_id].track_finished(track)),
            kept_all(
                pending,
                tenant_id,
                ends_of(
                    table[tenant_id].ended_by(
                        table[tenant_id].active_track == Some(track),
                        cause,
                    ),
                ),
            ),
        ),
        waits_on_live(table.insert(tenant_id, table[tenant_id].enqueue(track)), pending),
{
    let s = table[tenant_id];
    let hit = s.active_track == Some(track);
    let one = ends_of(s.ended_by(true, cause));
    let other = ends_of(s.ended_by(hit, cause));
    assert forall|x: TrackHandle| s.holds(x) && !ended_among(one, x) implies s.play_now(
        track,
    ).holds(x) && s.skip().holds(x) by {
        lemma_held_tracks_stay(s, track, ChannelId(0), false, x);
        if s.active_track == Some(x) {
            assert(one[0].track == x);
        }
    }
    assert forall|x: TrackHandle| s.holds(x) && !ended_among(other, x) implies s.track_finished(
        track,
    ).holds(x) by {
        lemma_held_tracks_stay(s, track, ChannelId(0), false, x);
        if hit && s.active_track == Some(x) {
            assert(other[0].track == x);
        }
    }
    assert forall|x: TrackHandle| s.holds(x) implies s.enqueue(track).holds(x) by {
        lemma_held_tracks_stay(s, track, ChannelId(0), false, x);
    }
    if s.is_connected() {
        lemma_live_after_change(table, s.play_now(track), pending, tenant_id, one);
    }
    lemma_live_after_change(table, s.skip(), pending, tenant_id, one);
    lemma_live_after_change(table, s.track_finished(track), pending, tenant_id, other);
    lemma_live_after_change(table, s.enqueue(track), pending, tenant_id, Seq::empty());
}

/// The registry of sessions and the broker of reactions.
pub struct VoiceManager {
    registry: VoiceSessionRegistry,
    broker: TrackEventBroker,
}

impl VoiceManager {
    /// The session of each guild that has one.
    pub closed spec fn sessions(&self) -> Map<TenantId, SessionState> {
        self.registry@
    }

    /// The reactions that wait for the end of a track.
    pub closed spec fn pending(&self) -> Seq<Registration> {
        self.broker.pending()
    }

    /// The participant that the bot is.
    pub closed spec fn self_member(&self) -> MemberId {
        self.broker.self_member()
    }

    /// The registry is in order, and every reaction waits for a track that
    /// the session of its guild holds.
    pub closed spec fn wf(&self) -> bool {
        &&& self.registry.wf()
        &&& waits_on_live(self.registry@, self.broker.pending())
    }

    /// Whether the session of `tenant_id`, if there is one, has room for
    /// one more track.
    pub open spec fn has_room(&self, tenant_id: TenantId) -> bool {
        self.sessions().contains_key(tenant_id) ==> self.sessions()[tenant_id].has_room()
    }

    /// What `play_now` does to a manager and what it reports.
    pub open spec fn played_now(
        before: &VoiceManager,
        after: &VoiceManager,
        tenant_id: TenantId,
        track: TrackHandle,
        r: Result<Effects, ErrorKind>,
    ) -> bool {
        match session_of(before.sessions(), tenant_id) {
            Some(s) if s.is_connected() => {
                &&& r is Ok
                &&& after.sessions() == before.sessions().insert(
                    tenant_id,
                    s.play_now(track),
                )
                &&& r->Ok_0.ended@ == ends_of(s.ended_by(true, EndCause::Stopped))
                &&& r->Ok_0.started == Some(track)
                &&& r->Ok_0.remaining_count == s.queue.len()
                &&& r->Ok_0.calls@ == due_all(before.pending(), tenant_id, r->Ok_0.ended@)
                &&& after.pending() == kept_all(
                    before.pending(),
                    tenant_id,
                    r->Ok_0.ended@,
                )
            },
            _ => {
                &&& r == Err::<Effects, ErrorKind>(ErrorKind::NotConnected)
                &&& after.sessions() == before.sessions()
                &&& after.pending() == before.pending()
            },
        }
    }

    /// What `enqueue` does to a manager and what it reports.
    pub open spec fn enqueued(
        before: &VoiceManager,
        after: &VoiceManager,
        tenant_id: TenantId,
        track: TrackHandle,
        r: Result<usize, ErrorKind>,
    ) -> bool {
        match session_of(before.sessions(), tenant_id) {
            Some(s) if s.is_connected() => {
                &&& r is Ok
                &&& r->Ok_0 == s.play_order().len() + 1
                &&& after.sessions() == before.sessions().insert(
                    tenant_id,
                    s.enqueue(track),
                )
            },
            _ => {
                &&& r == Err::<usize, ErrorKind>(ErrorKind::NotConnected)
                &&& after.sessions() == before.sessions()
            },
        }
    }

    /// What `skip` does to a manager and what it reports.
    pub open spec fn skipped(
        before: &VoiceManager,
        after: &VoiceManager,
        tenant_id: TenantId,
        r: Result<Effects, ErrorKind>,
    ) -> bool {
        match session_of(before.sessions(), tenant_id) {
            Some(s) => {
                &&& r is Ok
                &&& after.sessions() == before.sessions().insert(tenant_id, s.skip())
                &&& r->Ok_0.ended@ == ends_of(s.ended_by(true, EndCause::Stopped))
                &&& r->Ok_0.started == s.started_by(true)
                &&& r->Ok_0.remaining_count == s.remaining_by(true)
                &&& r->Ok_0.calls@ == due_all(before.pending(), tenant_id, r->Ok_0.ended@)
                &&& after.pending() == kept_all(
                    before.pending(),
                    tenant_id,
                    r->Ok_0.ended@,
                )
            },
            None => {
                &&& r == Err::<Effects, ErrorKind>(ErrorKind::NotConnected)
                &&& after.sessions() == before.sessions()
                &&& after.pending() == before.pending()
            },
        }
    }

    /// What `track_finished` does to a manager and what it reports.
    pub open spec fn finished(
        before: &VoiceManager,
        after: &VoiceManager,
        tenant_id: TenantId,
        track: TrackHandle,
        r: Result<Effects, ErrorKind>,
    ) -> bool {
        match session_of(before.sessions(), tenant_id) {
            Some(s) => {
                let hit = s.active_track == Some(track);
                &&& r is Ok
                &&& after.sessions() == before.sessions().insert(
                    tenant_id,
                    s.track_finished(track),
                )
                &&& r->Ok_0.ended@ == ends_of(s.ended_by(hit, EndCause::Finished))
                &&& r->Ok_0.started == s.started_by(hit)
                &&& r->Ok_0.remaining_count == s.remaining_by(hit)
                &&& r->Ok_0.calls@ == due_all(before.pending(), tenant_id, r->Ok_0.ended@)
                &&& after.pending() == kept_all(
                    before.pending(),
                    tenant_id,
                    r->Ok_0.ended@,
                )
            },
            None => {
                &&& r == Err::<Effects, ErrorKind>(ErrorKind::NotConnected)
                &&& after.sessions() == before.sessions()
                &&& after.pending() == before.pending()
            },
        }
    }

    /// What `stop_all` does to a manager and what it reports.
    pub open spec fn stopped_all(
        before: &VoiceManager,
        after: &VoiceManager,
        tenant_id: TenantId,
        r: Result<Effects, ErrorKind>,
    ) -> bool {
        match session_of(before.sessions(), tenant_id) {
            Some(s) => {
                &&& r is Ok
                &&& after.sessions() == before.sessions().insert(
                    tenant_id,
                    s.stop_all(),
                )
                &&& r->Ok_0.ended@ == stopped(s.play_order())
                &&& r->Ok_0.started is None
                &&& r->Ok_0.remaining_count == 0
                &&& r->Ok_0.calls@ == due_all(before.pending(), tenant_id, r->Ok_0.ended@)
                &&& after.pending() == kept_all(
                    before.pending(),
                    tenant_id,
                    r->Ok_0.ended@,
                )
            },
            None => {
                &&& r == Err::<Effects, ErrorKind>(ErrorKind::NotConnected)
                &&& after.sessions() == before.sessions()
                &&& after.pending() == before.pending()
            },
        }
    }

    /// What `hang_up` does to a manager and what it reports.
    pub open spec fn hung_up(
        before: &VoiceManager,
        after: &VoiceManager,
        tenant_id: TenantId,
        r: Result<Effects, ErrorKind>,
    ) -> bool {
        match session_of(before.sessions(), tenant_id) {
            Some(s) => {
                &&& r is Ok
                &&& after.sessions() == before.sessions().insert(tenant_id, s.leave())
                &&& r->Ok_0.ended@ == stopped(s.play_order())
                &&& r->Ok_0.started is None
                &&& r->Ok_0.remaining_count == 0
                &&& r->Ok_0.calls@ == due_all(before.pending(), tenant_id, r->Ok_0.ended@)
                &&& after.pending() == kept_all(
                    before.pending(),
                    tenant_id,
                    r->Ok_0.ended@,
                )
            },
            None => {
                &&& r == Err::<Effects, ErrorKind>(ErrorKind::NotConnected)
                &&& after.sessions() == before.sessions()
                &&& after.pending() == before.pending()
            },
        }
    }

    /// What `set_mute` does to a manager and what it reports.
    pub open spec fn muted(
        before: &VoiceManager,
        after: &VoiceManager,
        tenant_id: TenantId,
        muted: bool,
        r: Result<ToggleStatus, ErrorKind>,
    ) -> bool {
        match session_of(before.sessions(), tenant_id) {
            Some(s) => {
                &&& r == Ok::<ToggleStatus, ErrorKind>(
                    if s.muted == muted {
                        ToggleStatus::AlreadyInState
                    } else {
                        ToggleStatus::Changed
                    },
                )
                &&& after.sessions() == before.sessions().insert(
                    tenant_id,
                    s.set_mute(muted),
                )
            },
            None => {
                &&& r == Err::<ToggleStatus, ErrorKind>(ErrorKind::NotConnected)
                &&& after.sessions() == before.sessions()
            },
        }
    }

    /// What `set_deafen` does to a manager and what it reports.
    pub open spec fn deafened(
        before: &VoiceManager,
        after: &VoiceManager,
        tenant_id: TenantId,
        deafened: bool,
        r: Result<ToggleStatus, ErrorKind>,
    ) -> bool {
        match session_of(before.sessions(), tenant_id) {
            Some(s) => {
                &&& r == Ok::<ToggleStatus, ErrorKind>(
                    if s.deafened == deafened {
                        ToggleStatus::AlreadyInState
                    } else {
                        ToggleStatus::Changed
                    },
                )
                &&& after.sessions() == before.sessions().insert(
                    tenant_id,
                    s.set_deafen(deafened),
                )
            },
            None => {
                &&& r == Err::<ToggleStatus, ErrorKind>(ErrorKind::NotConnected)
                &&& after.sessions() == before.sessions()
            },
        }
    }

    /// No reaction waits in vain: each waits for a track that plays or
    /// waits in the session of its guild, and so for a track that is yet to
    /// end.
    pub proof fn lemma_reactions_wait_for_live_tracks(&self, i: int)
        requires
            self.wf(),
            0 <= i < self.pending().len(),
        ensures
            self.sessions().contains_key(self.pending()[i].tenant_id),
            self.sessions()[self.pending()[i].tenant_id].holds(self.pending()[i].track),
    {
    }

    /// Every session of the manager is well formed and filed under its
    /// guild.
    pub proof fn lemma_sessions_wf(&self, tenant_id: TenantId)
        requires
            self.wf(),
            self.sessions().contains_key(tenant_id),
        ensures
            self.sessions()[tenant_id].wf(),
            self.sessions()[tenant_id].tenant_id == tenant_id,
    {
        self.registry.lemma_entries_are_sessions(tenant_id);
    }

    /// A manager for the bot `self_member`: no sessions, no reactions.
    pub fn new(self_member: MemberId) -> (m: Self)
        ensures
            m.wf(),
            m.sessions() == Map::<TenantId, SessionState>::empty(),
            m.pending() == Seq::<Registration>::empty(),
            m.self_member() == self_member,
    {
        VoiceManager { registry: VoiceSessionRegistry::new(), broker: TrackEventBroker::new(self_member) }
    }

    /// The participant that the bot is.
    pub fn member(&self) -> (m: MemberId)
        ensures
            m == self.self_member(),
    {
        self.broker.member()
    }

    /// The registry of sessions.
    pub fn registry(&self) -> (r: &VoiceSessionRegistry)
        requires
            self.wf(),
        ensures
            r.wf(),
            r@ == self.sessions(),
    {
        &self.registry
    }

    /// The session of `tenant_id`, if the guild has one.
    pub fn session(&self, tenant_id: TenantId) -> (found: Option<&VoiceSession>)
        requires
            self.wf(),
        ensures
            found is Some <==> self.sessions().contains_key(tenant_id),
            found matches Some(s) ==> s.wf() && s@ == self.sessions()[tenant_id],
    {
        self.registry.get(tenant_id)
    }

    /// Whether the session of `tenant_id`, if there is one, has room for
    /// one more track. False only for a session that holds as many tracks
    /// as the machine can count.
    pub fn room_for(&self, tenant_id: TenantId) -> (b: bool)
        requires
            self.wf(),
        ensures
            b == self.has_room(tenant_id),
    {
        match self.registry.get(tenant_id) {
            Some(session) => session.room(),
            None => true,
        }
    }

    /// Whether the guild `tenant_id` has a session.
    pub fn is_connected(&self, tenant_id: TenantId) -> (b: bool)
        requires
            self.wf(),
        ensures
            b == self.sessions().contains_key(tenant_id),
    {
        self.registry.contains(tenant_id)
    }

    /// Takes the platform's answer `link` to an attempt to join
    /// `channel_id` for `tenant_id`.
    ///
    /// Where the link stands, the guild's session is in `channel_id` from
    /// now on: a session that was there moves and keeps its tracks, a
    /// guild without one gets a fresh session. Where it does not, nothing
    /// changes and the call fails with `ConnectionFailed`.
    pub fn join(
        &mut self,
        tenant_id: TenantId,
        channel_id: ChannelId,
        link: Result<ConnectionHandle, ConnectError>,
    ) -> (r: Result<(), ErrorKind>)
        requires
            old(self).wf(),
        ensures
            final(self).wf(),
            final(self).pending() == old(self).pending(),
            final(self).self_member() == old(self).self_member(),
            link is Ok ==> r is Ok && final(self).sessions() == joined_table(
                old(self).sessions(),
                tenant_id,
                channel_id,
            ),
            link is Err ==> r == Err::<(), ErrorKind>(ErrorKind::ConnectionFailed) && final(self).sessions() == old(self).sessions(),
    {
        let handle = match link {
            Ok(handle) => handle,
            Err(why) => {
                return Err(why.kind());
            },
        };
        match self.registry.get_mut(tenant_id) {
            Some(session) => {
                session.join(channel_id);
                return Ok(());
            },
            None => {},
        }
        let made = self.registry.get_or_create(tenant_id, channel_id, Ok(handle));
        Ok(())
    }

    /// Takes the platform's answer `unlink` to an attempt to leave the
    /// channel of `tenant_id`, and discards the guild's session where the
    /// platform has left.
    ///
    /// A guild without a session gives `NotConnected`; a failed attempt
    /// gives `DisconnectFailed` and keeps the session. Otherwise every
    /// track of the session ends as stopped, and the reactions that waited
    /// for them are called.
    pub fn leave(&mut self, tenant_id: TenantId, unlink: Result<(), DisconnectError>) -> (r:
        Result<Effects, ErrorKind>)
        requires
            old(self).wf(),
        ensures
            final(self).wf(),
            final(self).self_member() == old(self).self_member(),
            !old(self).sessions().contains_key(tenant_id) ==> r == Err::<Effects, ErrorKind>(
                ErrorKind::NotConnected,
            ),
            old(self).sessions().contains_key(tenant_id) && unlink is Err ==> r == Err::<
                Effects,
                ErrorKind,
            >(ErrorKind::DisconnectFailed),
            r is Err ==> final(self).sessions() == old(self).sessions() && final(self).pending()
                == old(self).pending(),
            old(self).sessions().contains_key(tenant_id) && unlink is Ok ==> {
                &&& r is Ok
                &&& final(self).sessions() == old(self).sessions().remove(tenant_id)
                &&& r->Ok_0.ended@ == stopped(old(self).sessions()[tenant_id].play_order())
                &&& r->Ok_0.started is None
                &&& r->Ok_0.remaining_count == 0
                &&& r->Ok_0.calls@ == due_all(old(self).pending(), tenant_id, r->Ok_0.ended@)
                &&& final(self).pending() == kept_all(
                    old(self).pending(),
                    tenant_id,
                    r->Ok_0.ended@,
                )
            },
    {
        proof {
            if self.registry@.contains_key(tenant_id) {
                self.registry.lemma_entries_are_sessions(tenant_id);
                lemma_live_after_clearing(
                    self.registry@,
                    self.registry@[tenant_id],
                    self.broker.pending(),
                    tenant_id,
                );
            }
        }
        match self.registry.remove(tenant_id, unlink) {
            Ok(ended) => {
                let calls = self.broker.deliver(tenant_id, &ended);
                Ok(Effects { ended, started: None, calls, remaining_count: 0 })
            },
            Err(kind) => Err(kind),
        }
    }

    /// Discards the playing track of `tenant_id`, if any, and plays `track`
    /// at once; the queue stays as it is. The interrupted track ends as
    /// stopped and its reactions are called.
    ///
    /// Without a session in a channel the call fails with `NotConnected`
    /// and changes nothing.
    pub fn play_now(&mut self, tenant_id: TenantId, track: TrackHandle) -> (r: Result<
        Effects,
        ErrorKind,
    >)
        requires
            old(self).wf(),
        ensures
            final(self).wf(),
            final(self).self_member() == old(self).self_member(),
            VoiceManager::played_now(old(self), final(self), tenant_id, track, r),
    {
        proof {
            if self.registry@.contains_key(tenant_id) {
                self.registry.lemma_entries_are_sessions(tenant_id);
                lemma_live_after_advance(
                    self.registry@,
                    self.broker.pending(),
                    tenant_id,
                    track,
                    EndCause::Stopped,
                );
            }
        }
        let (interrupted, remaining_count) = match self.registry.get_mut(tenant_id) {
            Some(session) => {
                match session.play_now(track) {
                    Ok(interrupted) => (interrupted, session.queue().len()),
                    Err(kind) => {
                        proof {
                            assert(old(self).sessions().insert(tenant_id, session@) =~= old(self).sessions());
                        }
                        return Err(kind);
                    },
                }
            },
            None => {
                return Err(ErrorKind::NotConnected);
            },
        };
        let mut ended: Vec<TrackEnd> = Vec::new();
        if let Some(end) = interrupted {
            ended.push(end);
        }
        assert(ended@ =~= ends_of(interrupted));
        let calls = self.broker.deliver(tenant_id, &ended);
        Ok(Effects { ended, started: Some(track), calls, remaining_count })
    }

    /// Puts `track` behind every track of `tenant_id`; where nothing plays,
    /// it starts at once.
    ///
    /// Returns the place of `track` in the play order, counted from 1: the
    /// track has to start now exactly when that is 1. Without a session in
    /// a channel the call fails with `NotConnected` and changes nothing: in
    /// particular no session is made.
    pub fn enqueue(&mut self, tenant_id: TenantId, track: TrackHandle) -> (r: Result<
        usize,
        ErrorKind,
    >)
        requires
            old(self).wf(),
            old(self).has_room(tenant_id),
        ensures
            final(self).wf(),
            final(self).self_member() == old(self).self_member(),
            final(self).pending() == old(self).pending(),
            VoiceManager::enqueued(old(self), final(self), tenant_id, track, r),
    {
        proof {
            if self.registry@.contains_key(tenant_id) {
                self.registry.lemma_entries_are_sessions(tenant_id);
                lemma_live_after_advance(
                    self.registry@,
                    self.broker.pending(),
                    tenant_id,
                    track,
                    EndCause::Stopped,
                );
            }
        }
        match self.registry.get_mut(tenant_id) {
            Some(session) => {
                let r = session.enqueue(track);
                proof {
                    if r is Err {
                        assert(old(self).sessions().insert(tenant_id, session@) =~= old(self).sessions());
                    }
                }
                r
            },
            None => Err(ErrorKind::NotConnected),
        }
    }

    /// Stops the playing track of `tenant_id` and promotes the next queued
    /// one, if any. The stopped track's reactions are called.
    ///
    /// Without a session the call fails with `NotConnected`.
    pub fn skip(&mut self, tenant_id: TenantId) -> (r: Result<Effects, ErrorKind>)
        requires
            old(self).wf(),
        ensures
            final(self).wf(),
            final(self).self_member() == old(self).self_member(),
            VoiceManager::skipped(old(self), final(self), tenant_id, r),
    {
        proof {
            if self.registry@.contains_key(tenant_id) {
                self.registry.lemma_entries_are_sessions(tenant_id);
                lemma_live_after_advance(
                    self.registry@,
                    self.broker.pending(),
                    tenant_id,
                    TrackHandle(0),
                    EndCause::Stopped,
                );
            }
        }
        let out = match self.registry.get_mut(tenant_id) {
            Some(session) => session.skip(),
            None => {
                return Err(ErrorKind::NotConnected);
            },
        };
        Ok(self.advanced(tenant_id, out))
    }

    /// Takes the platform's report that `track` of `tenant_id` has played
    /// to its end.
    ///
    /// Where `track` is the playing one, its reactions are called and the
    /// next queued track is promoted; a report about another track changes
    /// nothing. Without a session the call fails with `NotConnected`.
    pub fn track_finished(&mut self, tenant_id: TenantId, track: TrackHandle) -> (r: Result<
        Effects,
        ErrorKind,
    >)
        requires
            old(self).wf(),
        ensures
            final(self).wf(),
            final(self).self_member() == old(self).self_member(),
            VoiceManager::finished(old(self), final(self), tenant_id, track, r),
    {
        proof {
            if self.registry@.contains_key(tenant_id) {
                self.registry.lemma_entries_are_sessions(tenant_id);
                lemma_live_after_advance(
                    self.registry@,
                    self.broker.pending(),
                    tenant_id,
                    track,
                    EndCause::Finished,
                );
            }
        }
        let out = match self.registry.get_mut(tenant_id) {
            Some(session) => session.track_finished(track),
            None => {
                return Err(ErrorKind::NotConnected);
            },
        };
        Ok(self.advanced(tenant_id, out))
    }

    /// Calls the reactions for what `out` says has ended, and puts the
    /// whole into one report.
    fn advanced(&mut self, tenant_id: TenantId, out: Advance) -> (effects: Effects)
        ensures
            final(self).registry == old(self).registry,
            final(self).self_member() == old(self).self_member(),
            effects.ended@ == ends_of(out.ended),
            effects.started == out.started,
            effects.remaining_count == out.remaining_count,
            effects.calls@ == due_all(old(self).pending(), tenant_id, effects.ended@),
            final(self).pending() == kept_all(old(self).pending(), tenant_id, effects.ended@),
    {
        let mut ended: Vec<TrackEnd> = Vec::new();
        if let Some(end) = out.ended {
            ended.push(end);
        }
        assert(ended@ =~= ends_of(out.ended));
        let calls = self.broker.deliver(tenant_id, &ended);
        Effects { ended, started: out.started, calls, remaining_count: out.remaining_count }
    }

    /// Clears the queue of `tenant_id` and halts its playing track; the
    /// session stays connected and is idle. Every discarded track ends as
    /// stopped, and the reactions that waited for them are called.
    ///
    /// Without a session the call fails with `NotConnected`.
    pub fn stop_all(&mut self, tenant_id: TenantId) -> (r: Result<Effects, ErrorKind>)
        requires
            old(self).wf(),
        ensures
            final(self).wf(),
            final(self).self_member() == old(self).self_member(),
            VoiceManager::stopped_all(old(self), final(self), tenant_id, r),
    {
        proof {
            if self.registry@.contains_key(tenant_id) {
                self.registry.lemma_entries_are_sessions(tenant_id);
                lemma_live_after_clearing(
                    self.registry@,
                    self.registry@[tenant_id].stop_all(),
                    self.broker.pending(),
                    tenant_id,
                );
            }
        }
        let ended = match self.registry.get_mut(tenant_id) {
            Some(session) => session.stop_all(),
            None => {
                return Err(ErrorKind::NotConnected);
            },
        };
        let calls = self.broker.deliver(tenant_id, &ended);
        Ok(Effects { ended, started: None, calls, remaining_count: 0 })
    }

    /// Takes note that the bot of `tenant_id` has left its channel while
    /// the session stays, as between the steps of a join-and-leave
    /// sequence. Every track ends as stopped.
    ///
    /// Without a session the call fails with `NotConnected`.
    pub fn hang_up(&mut self, tenant_id: TenantId) -> (r: Result<Effects, ErrorKind>)
        requires
            old(self).wf(),
        ensures
            final(self).wf(),
            final(self).self_member() == old(self).self_member(),
            VoiceManager::hung_up(old(self), final(self), tenant_id, r),
    {
        proof {
            if self.registry@.contains_key(tenant_id) {
                self.registry.lemma_entries_are_sessions(tenant_id);
                lemma_live_after_clearing(
                    self.registry@,
                    self.registry@[tenant_id].leave(),
                    self.broker.pending(),
                    tenant_id,
                );
            }
        }
        let ended = match self.registry.get_mut(tenant_id) {
            Some(session) => session.leave(),
            None => {
                return Err(ErrorKind::NotConnected);
            },
        };
        let calls = self.broker.deliver(tenant_id, &ended);
        Ok(Effects { ended, started: None, calls, remaining_count: 0 })
    }

    /// Sets the mute flag of `tenant_id`. A request for the state that the
    /// session is in succeeds and says so.
    ///
    /// Without a session the call fails with `NotConnected`.
    pub fn set_mute(&mut self, tenant_id: TenantId, muted: bool) -> (r: Result<
        ToggleStatus,
        ErrorKind,
    >)
        requires
            old(self).wf(),
        ensures
            final(self).wf(),
            final(self).self_member() == old(self).self_member(),
            final(self).pending() == old(self).pending(),
            VoiceManager::muted(old(self), final(self), tenant_id, muted, r),
    {
        match self.registry.get_mut(tenant_id) {
            Some(session) => Ok(session.set_mute(muted)),
            None => Err(ErrorKind::NotConnected),
        }
    }

    /// Sets the deafen flag of `tenant_id`. A request for the state that
    /// the session is in succeeds and says so.
    ///
    /// Without a session the call fails with `NotConnected`.
    pub fn set_deafen(&mut self, tenant_id: TenantId, deafened: bool) -> (r: Result<
        ToggleStatus,
        ErrorKind,
    >)
        requires
            old(self).wf(),
        ensures
            final(self).wf(),
            final(self).self_member() == old(self).self_member(),
            final(self).pending() == old(self).pending(),
            VoiceManager::deafened(old(self), final(self), tenant_id, deafened, r),
    {
        match self.registry.get_mut(tenant_id) {
            Some(session) => Ok(session.set_deafen(deafened)),
            None => Err(ErrorKind::NotConnected),
        }
    }

    /// The channel that the bot of `tenant_id` is in.
    ///
    /// Without a session the call fails with `NotConnected`.
    pub fn current_channel(&self, tenant_id: TenantId) -> (r: Result<Option<ChannelId>, ErrorKind>)
        requires
            self.wf(),
        ensures
            match session_of(self.sessions(), tenant_id) {
                Some(s) => r == Ok::<Option<ChannelId>, ErrorKind>(s.channel_id),
                None => r == Err::<Option<ChannelId>, ErrorKind>(ErrorKind::NotConnected),
            },
    {
        match self.registry.get(tenant_id) {
            Some(session) => Ok(session.current_channel()),
            None => Err(ErrorKind::NotConnected),
        }
    }

    /// Registers `reaction` for the end of `track` of `tenant_id`: it is
    /// called once, when the track finishes or is stopped, whichever comes
    /// first.
    ///
    /// The answer is whether the session holds the track, and so whether
    /// anything was registered. Without a session the call fails with
    /// `NotConnected`.
    pub fn on_track_end(&mut self, tenant_id: TenantId, track: TrackHandle, reaction: ReactionId) -> (r:
        Result<bool, ErrorKind>)
        requires
            old(self).wf(),
        ensures
            final(self).wf(),
            final(self).self_member() == old(self).self_member(),
            final(self).sessions() == old(self).sessions(),
            match session_of(old(self).sessions(), tenant_id) {
                Some(s) => {
                    &&& r == Ok::<bool, ErrorKind>(s.holds(track))
                    &&& final(self).pending() == (if s.holds(track) {
                        old(self).pending().push(Registration { tenant_id, track, reaction })
                    } else {
                        old(self).pending()
                    })
                },
                None => {
                    &&& r == Err::<bool, ErrorKind>(ErrorKind::NotConnected)
                    &&& final(self).pending() == old(self).pending()
                },
            },
    {
        match self.registry.get(tenant_id) {
            Some(session) => Ok(self.broker.on_track_end(session, track, reaction)),
            None => Err(ErrorKind::NotConnected),
        }
    }

    /// Takes the platform's report that `member` of `tenant_id` was in
    /// `old_channel` and is now in `new_channel`, and says whether the
    /// greeting is called for: the bot itself has newly come into the
    /// channel of its session.
    pub fn on_voice_state_changed(
        &self,
        tenant_id: TenantId,
        member: MemberId,
        old_channel: Option<ChannelId>,
        new_channel: Option<ChannelId>,
    ) -> (greeting: Option<Greeting>)
        requires
            self.wf(),
        ensures
            greeting is Some <==> calls_for_greeting(
                self.self_member(),
                session_of(self.sessions(), tenant_id),
                member,
                old_channel,
                new_channel,
            ),
            greeting matches Some(g) ==> g.tenant_id == tenant_id && Some(g.channel_id)
                == new_channel,
    {
        self.broker.on_voice_state_changed(
            &self.registry,
            tenant_id,
            member,
            old_channel,
            new_channel,
        )
    }

    /// Discards every session, as at the end of the process. Every track
    /// is dropped with its session, so every reaction that waits is called
    /// as for a stopped track. Returns the guilds whose connections have to
    /// be torn down, and those calls.
    pub fn shutdown(&mut self) -> (out: Shutdown)
        requires
            old(self).wf(),
        ensures
            final(self).wf(),
            final(self).self_member() == old(self).self_member(),
            final(self).sessions() == Map::<TenantId, SessionState>::empty(),
            final(self).pending() == Seq::<Registration>::empty(),
            forall|t: TenantId| out.tenants@.contains(t) <==> old(self).sessions().contains_key(t),
            out.tenants@.no_duplicates(),
            out.calls@ == old(self).pending().map_values(
                |r: Registration| r.fire(EndCause::Stopped),
            ),
    {
        let tenants = self.registry.shutdown();
        let calls = self.broker.drain();
        Shutdown { tenants, calls }
    }
}

} // verus!
