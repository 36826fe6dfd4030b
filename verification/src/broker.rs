//! Delivery of track and voice-state events to the reactions that wait for
//! them.
use vstd::prelude::*;
use crate::ids::{ChannelId, MemberId, ReactionId, TenantId, TrackHandle};
use crate::registry::VoiceSessionRegistry;
use crate::session::{EndCause, SessionState, TrackEnd, VoiceSession};

verus! {

/// A reaction that waits for the end of one track of one guild.
#[derive(Clone, Copy, Debug, PartialEq, Eq, Hash, Structural)]
pub struct Registration {
    pub tenant_id: TenantId,
    pub track: TrackHandle,
    pub reaction: ReactionId,
}

/// The call of one reaction: its track has ended, and how.
#[derive(Clone, Copy, Debug, PartialEq, Eq, Hash, Structural)]
pub struct Notification {
    pub tenant_id: TenantId,
    pub track: TrackHandle,
    pub reaction: ReactionId,
    pub cause: EndCause,
}

/// The built-in reaction to a change of voice state: play the greeting in the
/// bot's channel.
#[derive(Clone, Copy, Debug, PartialEq, Eq, Hash, Structural)]
pub struct Greeting {
    pub tenant_id: TenantId,
    pub channel_id: ChannelId,
}

/// The events that the broker takes.
#[derive(Clone, Copy, Debug, PartialEq, Eq, Hash, Structural)]
pub enum BrokerEvent {
    /// A track of a guild has left its session.
    OnTrackEnd { tenant_id: TenantId, end: TrackEnd },
    /// A participant of a guild has changed its voice channel.
    OnVoiceStateChanged {
        tenant_id: TenantId,
        member: MemberId,
        old_channel: Option<ChannelId>,
        new_channel: Option<ChannelId>,
    },
}

/// What the broker asks for in answer to an event.
#[derive(Debug, PartialEq, Eq)]
pub enum Dispatch {
    /// Call these reactions, in this order.
    Notify(Vec<Notification>),
    /// Play the greeting.
    Greet(Greeting),
    /// The event concerns nobody.
    Nothing,
}

impl Registration {
    /// Whether the registration waits for `track` of `tenant_id`.
    pub open spec fn waits_for(self, tenant_id: TenantId, track: TrackHandle) -> bool {
        self.tenant_id == tenant_id && self.track == track
    }

    /// The call that the registration turns into when its track ends.
    pub open spec fn fire(self, cause: EndCause) -> Notification {
        Notification {
            tenant_id: self.tenant_id,
            track: self.track,
            reaction: self.reaction,
            cause,
        }
    }
}

/// The calls that the end `end` of a track of `tenant_id` sets off among
/// `pending`: one for each registration that waits for the track, in the
/// order of registration.
pub open spec fn due(pending: Seq<Registration>, tenant_id: TenantId, end: TrackEnd) -> Seq<
    Notification,
> {
    pending.filter(|r: Registration| r.waits_for(tenant_id, end.track)).map_values(
        |r: Registration| r.fire(end.cause),
    )
}

/// What stays of `pending` once `track` of `tenant_id` has ended: the
/// registrations that wait for something else, in their order.
pub open spec fn kept(pending: Seq<Registration>, tenant_id: TenantId, track: TrackHandle) -> Seq<
    Registration,
> {
    pending.filter(|r: Registration| !r.waits_for(tenant_id, track))
}

/// How `due` and `kept` go on when one more registration is taken in.
proof fn lemma_step(pending: Seq<Registration>, next: Registration, tenant_id: TenantId, end: TrackEnd)
    ensures
        due(pending.push(next), tenant_id, end) == (if next.waits_for(tenant_id, end.track) {
            due(pending, tenant_id, end).push(next.fire(end.cause))
        } else {
            due(pending, tenant_id, end)
        }),
        kept(pending.push(next), tenant_id, end.track) == (if next.waits_for(
            tenant_id,
            end.track,
        ) {
            kept(pending, tenant_id, end.track)
        } else {
            kept(pending, tenant_id, end.track).push(next)
        }),
{
    reveal(Seq::filter);
    let whole = pending.push(next);
    assert(whole.drop_last() =~= pending);
    assert(whole.last() == next);
    let waits = |r: Registration| r.waits_for(tenant_id, end.track);
    let fire = |r: Registration| r.fire(end.cause);
    if next.waits_for(tenant_id, end.track) {
        assert(pending.filter(waits).push(next).map_values(fire) =~= pending.filter(
            waits,
        ).map_values(fire).push(next.fire(end.cause)));
    }
}

/// Where nothing waits, nothing falls due and nothing stays.
proof fn lemma_none(tenant_id: TenantId, end: TrackEnd)
    ensures
        due(Seq::<Registration>::empty(), tenant_id, end) == Seq::<Notification>::empty(),
        kept(Seq::<Registration>::empty(), tenant_id, end.track) == Seq::<Registration>::empty(),
{
    reveal(Seq::filter);
    assert(due(Seq::<Registration>::empty(), tenant_id, end) =~= Seq::<Notification>::empty());
}

/// The calls that the ends `ends`, taken one after the other, set off
/// among `pending`.
pub open spec fn due_all(pending: Seq<Registration>, tenant_id: TenantId, ends: Seq<TrackEnd>) -> Seq<
    Notification,
>
    decreases ends.len(),
{
    if ends.len() == 0 {
        Seq::empty()
    } else {
        due(pending, tenant_id, ends[0]) + due_all(
            kept(pending, tenant_id, ends[0].track),
            tenant_id,
            ends.drop_first(),
        )
    }
}

/// What stays of `pending` once every track of `ends` has ended.
pub open spec fn kept_all(pending: Seq<Registration>, tenant_id: TenantId, ends: Seq<TrackEnd>) -> Seq<
    Registration,
>
    decreases ends.len(),
{
    if ends.len() == 0 {
        pending
    } else {
        kept_all(kept(pending, tenant_id, ends[0].track), tenant_id, ends.drop_first())
    }
}

/// Whether a change of voice state calls for the greeting: the participant
/// is the bot itself, it is now in the channel that the bot's session of
/// that guild has, and it was not in that channel before.
pub open spec fn calls_for_greeting(
    self_member: MemberId,
    session: Option<SessionState>,
    member: MemberId,
    old_channel: Option<ChannelId>,
    new_channel: Option<ChannelId>,
) -> bool {
    &&& member == self_member
    &&& session is Some
    &&& new_channel is Some
    &&& session->0.channel_id == new_channel
    &&& old_channel != new_channel
}

/// Each registration is called once and no more: what fell due at the end
/// of a track is gone from the list, so a second end of the same track sets
/// off nothing; what did not fall due stays, with its order; and the two
/// together are all there was.
pub proof fn lemma_reaction_fires_once(
    pending: Seq<Registration>,
    tenant_id: TenantId,
    end: TrackEnd,
    again: TrackEnd,
)
    requires
        again.track == end.track,
    ensures
        due(kept(pending, tenant_id, end.track), tenant_id, again) == Seq::<Notification>::empty(),
        due(pending, tenant_id, end).len() + kept(pending, tenant_id, end.track).len()
            == pending.len(),
        forall|i: int|
            0 <= i < due(pending, tenant_id, end).len() ==> (#[trigger] due(
                pending,
                tenant_id,
                end,
            )[i]).cause == end.cause && due(pending, tenant_id, end)[i].track == end.track && due(
                pending,
                tenant_id,
                end,
            )[i].tenant_id == tenant_id,
        forall|i: int|
            0 <= i < kept(pending, tenant_id, end.track).len() ==> !(#[trigger] kept(
                pending,
                tenant_id,
                end.track,
            )[i]).waits_for(tenant_id, end.track),
    decreases pending.len(),
{
    lemma_none(tenant_id, end);
    lemma_none(tenant_id, again);
    if pending.len() > 0 {
        let front = pending.drop_last();
        let last = pending.last();
        assert(front.push(last) =~= pending);
        lemma_reaction_fires_once(front, tenant_id, end, again);
        lemma_step(front, last, tenant_id, end);
        lemma_step(kept(front, tenant_id, end.track), last, tenant_id, again);
    }
}

/// The end of one track leaves the reactions that wait for another track,
/// or for a track of another guild, as they are.
pub proof fn lemma_other_reactions_wait_on(
    pending: Seq<Registration>,
    tenant_id: TenantId,
    track: TrackHandle,
    other_tenant: TenantId,
    other: TrackEnd,
)
    requires
        other_tenant != tenant_id || other.track != track,
    ensures
        due(kept(pending, tenant_id, track), other_tenant, other) == due(
            pending,
            other_tenant,
            other,
        ),
    decreases pending.len(),
{
    let gone = TrackEnd { track, cause: other.cause };
    lemma_none(tenant_id, gone);
    lemma_none(other_tenant, other);
    if pending.len() > 0 {
        let front = pending.drop_last();
        let last = pending.last();
        assert(front.push(last) =~= pending);
        lemma_other_reactions_wait_on(front, tenant_id, track, other_tenant, other);
        lemma_step(front, last, tenant_id, gone);
        lemma_step(front, last, other_tenant, other);
        lemma_step(kept(front, tenant_id, track), last, other_tenant, other);
    }
}

/// Whether one of `ends` is the end of `track`.
pub open spec fn ended_among(ends: Seq<TrackEnd>, track: TrackHandle) -> bool {
    exists|k: int| 0 <= k < ends.len() && (#[trigger] ends[k]).track == track
}

/// What stays after the end of a track was there before and waits for
/// another track.
proof fn lemma_kept_members(
    pending: Seq<Registration>,
    tenant_id: TenantId,
    track: TrackHandle,
    r: Registration,
)
    requires
        kept(pending, tenant_id, track).contains(r),
    ensures
        pending.contains(r),
        !r.waits_for(tenant_id, track),
    decreases pending.len(),
{
    reveal(Seq::filter);
    if pending.len() > 0 {
        let front = pending.drop_last();
        let last = pending.last();
        let stays = kept(pending, tenant_id, track);
        let at = choose|i: int| 0 <= i < stays.len() && stays[i] == r;
        if !last.waits_for(tenant_id, track) && at == stays.len() - 1 {
            assert(r == last);
            assert(pending[pending.len() - 1] == r);
        } else {
            assert(kept(front, tenant_id, track)[at] == r);
            lemma_kept_members(front, tenant_id, track, r);
            let j = choose|j: int| 0 <= j < front.len() && front[j] == r;
            assert(pending[j] == r);
        }
    }
}

/// Nothing is lost and nothing lingers: a registration that stays after
/// the ends `ends` was there before, and waits for a track that is not
/// among the ended ones.
pub proof fn lemma_kept_all_members(
    pending: Seq<Registration>,
    tenant_id: TenantId,
    ends: Seq<TrackEnd>,
    r: Registration,
)
    requires
        kept_all(pending, tenant_id, ends).contains(r),
    ensures
        pending.contains(r),
        !(r.tenant_id == tenant_id && ended_among(ends, r.track)),
    decreases ends.len(),
{
    if ends.len() > 0 {
        let rest = ends.drop_first();
        lemma_kept_all_members(kept(pending, tenant_id, ends[0].track), tenant_id, rest, r);
        lemma_kept_members(pending, tenant_id, ends[0].track, r);
        if r.tenant_id == tenant_id && ended_among(ends, r.track) {
            let k = choose|k: int| 0 <= k < ends.len() && (#[trigger] ends[k]).track == r.track;
            if k > 0 {
                assert(rest[k - 1].track == r.track);
            }
        }
    }
}

/// The broker: the reactions that wait for a track to end, and the bot's
/// own identity, by which it tells its own moves from those of others.
pub struct TrackEventBroker {
    self_member: MemberId,
    pending: Vec<Registration>,
}

impl TrackEventBroker {
    /// The reactions that wait, in the order of registration.
    pub closed spec fn pending(&self) -> Seq<Registration> {
        self.pending@
    }

    /// The participant that the bot is.
    pub closed spec fn self_member(&self) -> MemberId {
        self.self_member
    }

    /// A broker for the bot `self_member`, with nothing registered.
    pub fn new(self_member: MemberId) -> (b: Self)
        ensures
            b.pending() == Seq::<Registration>::empty(),
            b.self_member() == self_member,
    {
        TrackEventBroker { self_member, pending: Vec::new() }
    }

    /// The participant that the bot is.
    pub fn member(&self) -> (m: MemberId)
        ensures
            m == self.self_member(),
    {
        self.self_member
    }

    /// How many reactions wait.
    pub fn pending_count(&self) -> (n: usize)
        ensures
            n == self.pending().len(),
    {
        self.pending.len()
    }

    /// Registers `reaction` for the end of `track` in `session`.
    ///
    /// The reaction is called once: when the track finishes, or when it is
    /// skipped, replaced or cleared away, whichever comes first. A track
    /// that the session does not hold cannot end there, so for such a track
    /// nothing is registered and the answer is `false`.
    pub fn on_track_end(&mut self, session: &VoiceSession, track: TrackHandle, reaction: ReactionId) -> (registered:
        bool)
        ensures
            registered == session@.holds(track),
            final(self).self_member() == old(self).self_member(),
            registered ==> final(self).pending() == old(self).pending().push(
                Registration { tenant_id: session@.tenant_id, track, reaction },
            ),
            !registered ==> final(self).pending() == old(self).pending(),
    {
        if session.holds(track) {
            self.pending.push(Registration { tenant_id: session.tenant_id(), track, reaction });
            true
        } else {
            false
        }
    }

    /// Takes the end `end` of a track of `tenant_id`: the reactions that
    /// wait for this track fall due, in the order of registration, and
    /// leave the list.
    pub fn track_ended(&mut self, tenant_id: TenantId, end: TrackEnd) -> (calls: Vec<Notification>)
        ensures
            calls@ == due(old(self).pending(), tenant_id, end),
            final(self).pending() == kept(old(self).pending(), tenant_id, end.track),
            final(self).self_member() == old(self).self_member(),
    {
        let mut calls: Vec<Notification> = Vec::new();
        let mut rest: Vec<Registration> = Vec::new();
        let mut i: usize = 0;
        proof {
            lemma_none(tenant_id, end);
            assert(self.pending@.subrange(0, 0) =~= Seq::<Registration>::empty());
        }
        while i < self.pending.len()
            invariant
                *self == *old(self),
                i <= self.pending@.len(),
                calls@ == due(self.pending@.subrange(0, i as int), tenant_id, end),
                rest@ == kept(self.pending@.subrange(0, i as int), tenant_id, end.track),
            decreases self.pending@.len() - i,
        {
            let entry = self.pending[i];
            proof {
                let seen = self.pending@.subrange(0, i as int);
                assert(self.pending@.subrange(0, i + 1) =~= seen.push(entry));
                lemma_step(seen, entry, tenant_id, end);
            }
            if entry.tenant_id == tenant_id && entry.track == end.track {
                calls.push(
                    Notification {
                        tenant_id: entry.tenant_id,
                        track: entry.track,
                        reaction: entry.reaction,
                        cause: end.cause,
                    },
                );
            } else {
                rest.push(entry);
            }
            i = i + 1;
        }
        assert(self.pending@.subrange(0, i as int) =~= self.pending@);
        self.pending = rest;
        calls
    }

    /// Gives up every registration, as at the end of the process: each
    /// reaction is called as for a stopped track, in the order of
    /// registration.
    pub fn drain(&mut self) -> (calls: Vec<Notification>)
        ensures
            calls@ == old(self).pending().map_values(
                |r: Registration| r.fire(EndCause::Stopped),
            ),
            final(self).pending() == Seq::<Registration>::empty(),
            final(self).self_member() == old(self).self_member(),
    {
        let mut calls: Vec<Notification> = Vec::new();
        let mut i: usize = 0;
        while i < self.pending.len()
            invariant
                *self == *old(self),
                i <= self.pending@.len(),
                calls@ == self.pending@.subrange(0, i as int).map_values(
                    |r: Registration| r.fire(EndCause::Stopped),
                ),
            decreases self.pending@.len() - i,
        {
            let entry = self.pending[i];
            calls.push(
                Notification {
                    tenant_id: entry.tenant_id,
                    track: entry.track,
                    reaction: entry.reaction,
                    cause: EndCause::Stopped,
                },
            );
            assert(calls@ =~= self.pending@.subrange(0, i + 1).map_values(
                |r: Registration| r.fire(EndCause::Stopped),
            ));
            i = i + 1;
        }
        assert(self.pending@.subrange(0, i as int) =~= self.pending@);
        self.pending.clear();
        calls
    }

    /// Takes the ends `ends` of tracks of `tenant_id`, one after the other.
    pub fn deliver(&mut self, tenant_id: TenantId, ends: &Vec<TrackEnd>) -> (calls: Vec<Notification>)
        ensures
            calls@ == due_all(old(self).pending(), tenant_id, ends@),
            final(self).pending() == kept_all(old(self).pending(), tenant_id, ends@),
            final(self).self_member() == old(self).self_member(),
    {
        let mut calls: Vec<Notification> = Vec::new();
        let mut i: usize = 0;
        proof {
            assert(ends@.subrange(0, ends@.len() as int) =~= ends@);
            assert(calls@ + due_all(self.pending(), tenant_id, ends@) =~= due_all(
                self.pending(),
                tenant_id,
                ends@,
            ));
        }
        while i < ends.len()
            invariant
                i <= ends@.len(),
                self.self_member() == old(self).self_member(),
                calls@ + due_all(self.pending(), tenant_id, ends@.subrange(i as int, ends@.len() as int))
                    == due_all(old(self).pending(), tenant_id, ends@),
                kept_all(self.pending(), tenant_id, ends@.subrange(i as int, ends@.len() as int))
                    == kept_all(old(self).pending(), tenant_id, ends@),
            decreases ends@.len() - i,
        {
            let ghost before = self.pending();
            let ghost so_far = calls@;
            let ghost tail = ends@.subrange(i as int, ends@.len() as int);
            let mut fresh = self.track_ended(tenant_id, ends[i]);
            calls.append(&mut fresh);
            proof {
                assert(tail[0] == ends@[i as int]);
                assert(tail.drop_first() =~= ends@.subrange(i + 1, ends@.len() as int));
                assert((so_far + due(before, tenant_id, tail[0])) + due_all(
                    kept(before, tenant_id, tail[0].track),
                    tenant_id,
                    tail.drop_first(),
                ) =~= so_far + due_all(before, tenant_id, tail));
            }
            i = i + 1;
        }
        proof {
            assert(calls@ + Seq::<Notification>::empty() =~= calls@);
        }
        calls
    }

    /// Takes a change of voice state: `member` of `tenant_id` was in
    /// `old_channel` and is now in `new_channel`.
    ///
    /// The one reaction is the greeting. It is called for when the bot
    /// itself has newly come into the channel that its session of this guild
    /// has: a change between other channels, a change of another
    /// participant, or an event that repeats the channel calls for nothing.
    pub fn on_voice_state_changed(
        &self,
        registry: &VoiceSessionRegistry,
        tenant_id: TenantId,
        member: MemberId,
        old_channel: Option<ChannelId>,
        new_channel: Option<ChannelId>,
    ) -> (greeting: Option<Greeting>)
        requires
            registry.wf(),
        ensures
            greeting is Some <==> calls_for_greeting(
                self.self_member(),
                if registry@.contains_key(tenant_id) {
                    Some(registry@[tenant_id])
                } else {
                    None
                },
                member,
                old_channel,
                new_channel,
            ),
            greeting matches Some(g) ==> g.tenant_id == tenant_id && Some(g.channel_id)
                == new_channel,
    {
        if member != self.self_member {
            return None;
        }
        let current = match registry.get(tenant_id) {
            Some(session) => session.current_channel(),
            None => {
                return None;
            },
        };
        match new_channel {
            Some(channel_id) => {
                if current == Some(channel_id) && old_channel != new_channel {
                    Some(Greeting { tenant_id, channel_id })
                } else {
                    None
                }
            },
            None => None,
        }
    }

    /// Takes any event and says what it calls for.
    pub fn dispatch(&mut self, registry: &VoiceSessionRegistry, event: BrokerEvent) -> (out: Dispatch)
        requires
            registry.wf(),
        ensures
            final(self).self_member() == old(self).self_member(),
            match event {
                BrokerEvent::OnTrackEnd { tenant_id, end } => {
                    &&& final(self).pending() == kept(old(self).pending(), tenant_id, end.track)
                    &&& due(old(self).pending(), tenant_id, end).len() > 0 ==> out is Notify
                        && out->Notify_0@ == due(old(self).pending(), tenant_id, end)
                    &&& due(old(self).pending(), tenant_id, end).len() == 0 ==> out is Nothing
                },
                BrokerEvent::OnVoiceStateChanged { tenant_id, member, old_channel, new_channel } => {
                    &&& final(self).pending() == old(self).pending()
                    &&& out !is Notify
                    &&& out is Greet <==> calls_for_greeting(
                        old(self).self_member(),
                        if registry@.contains_key(tenant_id) {
                            Some(registry@[tenant_id])
                        } else {
                            None
                        },
                        member,
                        old_channel,
                        new_channel,
                    )
                    &&& out matches Dispatch::Greet(g) ==> g.tenant_id == tenant_id && Some(
                        g.channel_id,
                    ) == new_channel
                },
            },
    {
        match event {
            BrokerEvent::OnTrackEnd { tenant_id, end } => {
                let calls = self.track_ended(tenant_id, end);
                if calls.len() > 0 {
                    Dispatch::Notify(calls)
                } else {
                    Dispatch::Nothing
                }
            },
            BrokerEvent::OnVoiceStateChanged { tenant_id, member, old_channel, new_channel } => {
                match self.on_voice_state_changed(
                    registry,
                    tenant_id,
                    member,
                    old_channel,
                    new_channel,
                ) {
                    Some(g) => Dispatch::Greet(g),
                    None => Dispatch::Nothing,
                }
            },
        }
    }
}

} // verus!
