//! One guild's voice session: where the bot is connected, what it plays and
//! what waits to be played.
use vstd::prelude::*;
use crate::errors::ErrorKind;
use crate::ids::{ChannelId, TenantId, TrackHandle};
use crate::queue::TrackQueue;

verus! {

/// Why a track stopped being the concern of its session.
#[derive(Clone, Copy, Debug, PartialEq, Eq, Hash, Structural)]
pub enum EndCause {
    /// The track played to its end.
    Finished,
    /// The track was skipped, replaced or cleared away.
    Stopped,
}

/// One track that left its session, and why.
#[derive(Clone, Copy, Debug, PartialEq, Eq, Hash, Structural)]
pub struct TrackEnd {
    pub track: TrackHandle,
    pub cause: EndCause,
}

/// What a change of the playing track did.
#[derive(Clone, Copy, Debug, PartialEq, Eq, Structural)]
pub struct Advance {
    /// The track that stopped playing, if one was playing.
    pub ended: Option<TrackEnd>,
    /// The track that was promoted from the queue and has to start now.
    pub started: Option<TrackHandle>,
    /// How many tracks still wait in the queue.
    pub remaining_count: usize,
}

/// Whether a mute or deafen request changed anything.
#[derive(Clone, Copy, Debug, PartialEq, Eq, Hash, Structural)]
pub enum ToggleStatus {
    /// The flag was flipped.
    Changed,
    /// The flag already had the requested value.
    AlreadyInState,
}

impl ToggleStatus {
    /// The kind under which the status is reported, where it is one that
    /// informs of something: a request for the state that already holds.
    pub fn kind(self) -> (k: Option<ErrorKind>)
        ensures
            k == (match self {
                ToggleStatus::Changed => None,
                ToggleStatus::AlreadyInState => Some(ErrorKind::AlreadyInState),
            }),
    {
        match self {
            ToggleStatus::Changed => None,
            ToggleStatus::AlreadyInState => Some(ErrorKind::AlreadyInState),
        }
    }
}

/// The two states of a connected session.
#[derive(Clone, Copy, Debug, PartialEq, Eq, Hash, Structural)]
pub enum Phase {
    /// Nothing is playing.
    Idle,
    /// A track is playing.
    Playing,
}

/// The mathematical content of a session.
pub struct SessionState {
    pub tenant_id: TenantId,
    pub channel_id: Option<ChannelId>,
    pub muted: bool,
    pub deafened: bool,
    pub active_track: Option<TrackHandle>,
    pub queue: Seq<TrackHandle>,
}

/// Each of `tracks`, in order, as stopped.
pub open spec fn stopped(tracks: Seq<TrackHandle>) -> Seq<TrackEnd> {
    Seq::new(tracks.len(), |i: int| TrackEnd { track: tracks[i], cause: EndCause::Stopped })
}

impl SessionState {
    /// A track plays only while the session is connected, and nothing waits
    /// while nothing plays.
    pub open spec fn wf(self) -> bool {
        &&& self.active_track is Some ==> self.channel_id is Some
        &&& self.active_track is None ==> self.queue.len() == 0
    }

    /// A fresh session of `tenant_id`, connected to `channel_id`.
    pub open spec fn connected(tenant_id: TenantId, channel_id: ChannelId) -> SessionState {
        SessionState {
            tenant_id,
            channel_id: Some(channel_id),
            muted: false,
            deafened: false,
            active_track: None,
            queue: Seq::empty(),
        }
    }

    /// Whether the bot sits in a voice channel.
    pub open spec fn is_connected(self) -> bool {
        self.channel_id is Some
    }

    /// Whether the number of one more track still fits the machine's word.
    pub open spec fn has_room(self) -> bool {
        self.play_order().len() < usize::MAX
    }

    /// Whether `track` plays or waits in this session.
    pub open spec fn holds(self, track: TrackHandle) -> bool {
        self.play_order().contains(track)
    }

    /// Idle or playing.
    pub open spec fn phase(self) -> Phase {
        if self.active_track is Some {
            Phase::Playing
        } else {
            Phase::Idle
        }
    }

    /// The tracks of the session in the order in which they play: the
    /// playing one, then the queue.
    pub open spec fn play_order(self) -> Seq<TrackHandle> {
        match self.active_track {
            Some(t) => seq![t] + self.queue,
            None => self.queue,
        }
    }

    /// The session with the head of its queue, if any, in place of the
    /// playing track.
    pub open spec fn promoted(self) -> SessionState {
        if self.queue.len() > 0 {
            SessionState {
                active_track: Some(self.queue[0]),
                queue: self.queue.drop_first(),
                ..self
            }
        } else {
            SessionState { active_track: None, ..self }
        }
    }

    /// The session after `play_now`: `track` plays in place of whatever
    /// played, the queue is untouched; no change without a channel.
    pub open spec fn play_now(self, track: TrackHandle) -> SessionState {
        if self.is_connected() {
            SessionState { active_track: Some(track), ..self }
        } else {
            self
        }
    }

    /// The session after `enqueue`: `track` plays where nothing played, and
    /// waits at the end of the queue where something did; no change without
    /// a channel.
    pub open spec fn enqueue(self, track: TrackHandle) -> SessionState {
        if !self.is_connected() {
            self
        } else if self.active_track is None {
            SessionState { active_track: Some(track), ..self }
        } else {
            SessionState { queue: self.queue.push(track), ..self }
        }
    }

    /// The session after `skip`: the head of the queue, if any, plays in
    /// place of the playing track; no change where nothing played.
    pub open spec fn skip(self) -> SessionState {
        if self.active_track is Some {
            self.promoted()
        } else {
            self
        }
    }

    /// The session after `track` was reported as finished: as after a skip
    /// where `track` is the playing one, and unchanged where it is not.
    pub open spec fn track_finished(self, track: TrackHandle) -> SessionState {
        if self.active_track == Some(track) {
            self.promoted()
        } else {
            self
        }
    }

    /// The session after `stop_all`: nothing plays, nothing waits, the
    /// channel stays.
    pub open spec fn stop_all(self) -> SessionState {
        SessionState { active_track: None, queue: Seq::empty(), ..self }
    }

    /// The session after `join`: in `channel_id`, all else unchanged.
    pub open spec fn join(self, channel_id: ChannelId) -> SessionState {
        SessionState { channel_id: Some(channel_id), ..self }
    }

    /// The session after `leave`: without a channel and without tracks.
    pub open spec fn leave(self) -> SessionState {
        SessionState { channel_id: None, active_track: None, queue: Seq::empty(), ..self }
    }

    /// The session with its mute flag set to `muted`.
    pub open spec fn set_mute(self, muted: bool) -> SessionState {
        SessionState { muted, ..self }
    }

    /// The session with its deafen flag set to `deafened`.
    pub open spec fn set_deafen(self, deafened: bool) -> SessionState {
        SessionState { deafened, ..self }
    }

    /// The end of the playing track for the reason `cause`, where `hit` says
    /// that the operation is about the playing track and a track plays;
    /// nothing else.
    pub open spec fn ended_by(self, hit: bool, cause: EndCause) -> Option<TrackEnd> {
        if hit && self.active_track is Some {
            Some(TrackEnd { track: self.active_track->0, cause })
        } else {
            None
        }
    }

    /// The track that an advance promotes from the queue, where `hit` says
    /// that the operation is about the playing track and a track plays;
    /// nothing else.
    pub open spec fn started_by(self, hit: bool) -> Option<TrackHandle> {
        if hit && self.active_track is Some {
            self.promoted().active_track
        } else {
            None
        }
    }

    /// How many tracks wait after an advance: one less than before where a
    /// track was promoted, and as many as before in every other case.
    pub open spec fn remaining_by(self, hit: bool) -> nat {
        if hit && self.active_track is Some {
            self.promoted().queue.len()
        } else {
            self.queue.len()
        }
    }

    /// Whether `out` is what `skip` reports, or what the report of a
    /// finished track gives when `hit` says that the report is about the
    /// playing track.
    pub open spec fn advances(self, hit: bool, cause: EndCause, out: Advance) -> bool {
        &&& out.ended == self.ended_by(hit, cause)
        &&& out.started == self.started_by(hit)
        &&& out.remaining_count == self.remaining_by(hit)
    }
}

/// The session after `tracks` were enqueued one by one, in order.
pub open spec fn enqueue_all(s: SessionState, tracks: Seq<TrackHandle>) -> SessionState
    decreases tracks.len(),
{
    if tracks.len() == 0 {
        s
    } else {
        enqueue_all(s, tracks.drop_last()).enqueue(tracks.last())
    }
}

/// The session after the playing track has finished `count` times in a row.
pub open spec fn play_through(s: SessionState, count: nat) -> SessionState
    decreases count,
{
    if count == 0 {
        s
    } else {
        play_through(s, (count - 1) as nat).promoted()
    }
}

/// First in, first out: whatever is enqueued on a connected session plays
/// behind what the session already holds, in the order of the calls. On an
/// idle session the play order is the order of the calls: the first track
/// plays and the others wait in their order, none lost, none twice. This
/// holds for any number of calls.
pub proof fn lemma_enqueue_is_fifo(s: SessionState, tracks: Seq<TrackHandle>)
    requires
        s.wf(),
        s.is_connected(),
    ensures
        enqueue_all(s, tracks).wf(),
        enqueue_all(s, tracks).is_connected(),
        enqueue_all(s, tracks).play_order() == s.play_order() + tracks,
        s.phase() == Phase::Idle ==> enqueue_all(s, tracks).play_order() == tracks,
        s.phase() == Phase::Idle && tracks.len() > 0 ==> enqueue_all(s, tracks).active_track
            == Some(tracks[0]) && enqueue_all(s, tracks).queue == tracks.drop_first(),
    decreases tracks.len(),
{
    if tracks.len() == 0 {
        assert(s.play_order() + tracks =~= s.play_order());
    } else {
        let front = tracks.drop_last();
        lemma_enqueue_is_fifo(s, front);
        let mid = enqueue_all(s, front);
        assert(mid.enqueue(tracks.last()).play_order() =~= mid.play_order().push(tracks.last()));
        assert((s.play_order() + front).push(tracks.last()) =~= s.play_order() + tracks);
    }
    if s.phase() == Phase::Idle {
        assert(s.play_order() + tracks =~= tracks);
        if tracks.len() > 0 {
            let end = enqueue_all(s, tracks);
            assert(end.play_order()[0] == tracks[0]);
            assert(end.active_track is Some);
            assert(end.queue =~= tracks.drop_first());
        }
    }
}

/// Tracks are played in the order of the play order, none twice and none
/// left out: after `count` tracks have finished, what is left is the play
/// order without its first `count` tracks.
pub proof fn lemma_playback_follows_play_order(s: SessionState, count: nat)
    requires
        s.wf(),
        count <= s.play_order().len(),
    ensures
        play_through(s, count).wf(),
        play_through(s, count).play_order() == s.play_order().subrange(
            count as int,
            s.play_order().len() as int,
        ),
    decreases count,
{
    if count == 0 {
        assert(s.play_order().subrange(0, s.play_order().len() as int) =~= s.play_order());
    } else {
        lemma_playback_follows_play_order(s, (count - 1) as nat);
        let mid = play_through(s, (count - 1) as nat);
        assert(mid.promoted().play_order() =~= mid.play_order().drop_first());
        assert(s.play_order().subrange(count - 1, s.play_order().len() as int).drop_first()
            =~= s.play_order().subrange(count as int, s.play_order().len() as int));
    }
}

/// No track survives a stop: after `stop_all`, an `enqueue` of `track` makes
/// `track` the playing one, with nothing behind it; on a session without a
/// channel nothing plays at all.
pub proof fn lemma_stop_then_enqueue(s: SessionState, track: TrackHandle)
    requires
        s.wf(),
    ensures
        s.stop_all().phase() == Phase::Idle,
        s.stop_all().play_order() == Seq::<TrackHandle>::empty(),
        s.is_connected() ==> s.stop_all().enqueue(track).active_track == Some(track),
        s.is_connected() ==> s.stop_all().enqueue(track).play_order() == seq![track],
        !s.is_connected() ==> s.stop_all().enqueue(track).active_track is None,
{
    assert(s.stop_all().play_order() =~= Seq::<TrackHandle>::empty());
    if s.is_connected() {
        assert(s.stop_all().enqueue(track).play_order() =~= seq![track]);
    }
}

/// A skip with nothing queued leaves the session idle and reports that
/// nothing remains.
pub proof fn lemma_skip_with_empty_queue(s: SessionState)
    requires
        s.wf(),
        s.queue.len() == 0,
    ensures
        s.skip().wf(),
        s.skip().phase() == Phase::Idle,
        s.remaining_by(true) == 0,
        s.started_by(true) is None,
{
}

/// The moves between the two states: a session that is connected starts to
/// play with the first track that it is given, goes on playing while tracks
/// wait, falls idle when the last one has finished, and is idle after a
/// stop, whatever it did before.
pub proof fn lemma_phase_transitions(s: SessionState, track: TrackHandle)
    requires
        s.wf(),
    ensures
        s.is_connected() ==> s.enqueue(track).phase() == Phase::Playing,
        s.is_connected() ==> s.play_now(track).phase() == Phase::Playing,
        s.active_track == Some(track) && s.queue.len() == 0 ==> s.track_finished(track).phase()
            == Phase::Idle,
        s.active_track == Some(track) && s.queue.len() > 0 ==> s.track_finished(track).phase()
            == Phase::Playing && s.track_finished(track).active_track == Some(s.queue[0]),
        s.stop_all().phase() == Phase::Idle,
        s.stop_all().channel_id == s.channel_id,
        s.enqueue(track).wf(),
        s.play_now(track).wf(),
        s.skip().wf(),
        s.track_finished(track).wf(),
        s.stop_all().wf(),
{
}

/// The head of the queue leaves only when the playing track finishes or is
/// skipped, or when everything is stopped: no other operation takes a track
/// out of the queue or changes the order of those that wait.
pub proof fn lemma_queue_is_kept(s: SessionState, track: TrackHandle, channel_id: ChannelId, flag: bool)
    requires
        s.wf(),
    ensures
        s.play_now(track).queue == s.queue,
        s.enqueue(track).queue == s.queue || s.enqueue(track).queue == s.queue.push(track),
        s.join(channel_id).queue == s.queue,
        s.set_mute(flag).queue == s.queue,
        s.set_deafen(flag).queue == s.queue,
        s.active_track != Some(track) ==> s.track_finished(track) == s,
        s.active_track is Some ==> s.skip().play_order() == s.queue,
{
    if s.active_track is Some {
        assert(s.skip().play_order() =~= s.queue);
    }
}

/// A track leaves its session only by ending: whatever the session holds
/// is still held after an operation, unless the operation ended it.
pub proof fn lemma_held_tracks_stay(
    s: SessionState,
    track: TrackHandle,
    channel_id: ChannelId,
    flag: bool,
    x: TrackHandle,
)
    requires
        s.wf(),
        s.holds(x),
    ensures
        s.enqueue(track).holds(x),
        s.join(channel_id).holds(x),
        s.set_mute(flag).holds(x),
        s.set_deafen(flag).holds(x),
        s.active_track != Some(x) ==> s.play_now(track).holds(x),
        s.active_track != Some(x) ==> s.skip().holds(x),
        s.active_track != Some(x) ==> s.track_finished(track).holds(x),
        s.active_track != Some(track) ==> s.track_finished(track).holds(x),
        exists|k: int| 0 <= k < stopped(s.play_order()).len() && (#[trigger] stopped(
            s.play_order(),
        )[k]).track == x,
{
    let order = s.play_order();
    let at = choose|i: int| 0 <= i < order.len() && order[i] == x;
    assert(stopped(order)[at].track == x);
    if s.is_connected() {
        if s.active_track is None {
            assert(s.enqueue(track).play_order()[0] == track);
        } else {
            assert(s.enqueue(track).play_order()[at] == x);
        }
    }
    assert(s.join(channel_id).play_order() == order);
    assert(s.set_mute(flag).play_order() == order);
    assert(s.set_deafen(flag).play_order() == order);
    if s.active_track != Some(x) {
        assert(s.active_track is Some);
        assert(at > 0);
        assert(s.queue[at - 1] == x);
        assert(s.play_now(track).play_order()[at] == x);
        assert(s.promoted().play_order() =~= s.queue);
        assert(s.promoted().play_order()[at - 1] == x);
    }
}

/// The live voice connection of one guild and its playback state.
pub struct VoiceSession {
    tenant_id: TenantId,
    channel_id: Option<ChannelId>,
    muted: bool,
    deafened: bool,
    queue: TrackQueue,
    active_track: Option<TrackHandle>,
}

impl View for VoiceSession {
    type V = SessionState;

    closed spec fn view(&self) -> SessionState {
        SessionState {
            tenant_id: self.tenant_id,
            channel_id: self.channel_id,
            muted: self.muted,
            deafened: self.deafened,
            active_track: self.active_track,
            queue: self.queue@,
        }
    }
}

impl VoiceSession {
    /// The invariant of every session that this module hands out.
    pub open spec fn wf(&self) -> bool {
        self@.wf()
    }

    /// Whether the number of one more track still fits the machine's word.
    pub open spec fn has_room(&self) -> bool {
        self@.has_room()
    }

    /// A session for `tenant_id`, connected to `channel_id`, with nothing
    /// playing and nothing queued.
    pub fn new(tenant_id: TenantId, channel_id: ChannelId) -> (s: Self)
        ensures
            s.wf(),
            s@ == SessionState::connected(tenant_id, channel_id),
    {
        VoiceSession {
            tenant_id,
            channel_id: Some(channel_id),
            muted: false,
            deafened: false,
            queue: TrackQueue::new(),
            active_track: None,
        }
    }

    /// The guild that the session belongs to.
    pub fn tenant_id(&self) -> (t: TenantId)
        ensures
            t == self@.tenant_id,
    {
        self.tenant_id
    }

    /// The voice channel that the bot is in, if it is in one.
    pub fn current_channel(&self) -> (c: Option<ChannelId>)
        ensures
            c == self@.channel_id,
    {
        self.channel_id
    }

    /// Whether the bot is muted.
    pub fn is_mute(&self) -> (b: bool)
        ensures
            b == self@.muted,
    {
        self.muted
    }

    /// Whether the bot is deafened.
    pub fn is_deaf(&self) -> (b: bool)
        ensures
            b == self@.deafened,
    {
        self.deafened
    }

    /// The track that is playing, if one is.
    pub fn active_track(&self) -> (t: Option<TrackHandle>)
        ensures
            t == self@.active_track,
    {
        self.active_track
    }

    /// The tracks that wait behind the playing one.
    pub fn queue(&self) -> (q: &TrackQueue)
        ensures
            q@ == self@.queue,
    {
        &self.queue
    }

    /// Whether `track` plays or waits in this session.
    pub fn holds(&self, track: TrackHandle) -> (b: bool)
        ensures
            b == self@.holds(track),
    {
        if self.active_track == Some(track) {
            assert(self@.play_order()[0] == track);
            return true;
        }
        let mut i: usize = 0;
        while i < self.queue.len()
            invariant
                i <= self@.queue.len(),
                self.active_track != Some(track),
                forall|j: int| 0 <= j < i ==> self@.queue[j] != track,
            decreases self@.queue.len() - i,
        {
            if self.queue.get(i) == Some(track) {
                proof {
                    let at = if self.active_track is Some { i + 1 } else { i as int };
                    assert(self@.play_order()[at] == track);
                }
                return true;
            }
            i = i + 1;
        }
        proof {
            if self@.play_order().contains(track) {
                let at = choose|k: int|
                    0 <= k < self@.play_order().len() && self@.play_order()[k] == track;
                if self.active_track is Some {
                    assert(at > 0);
                    assert(self@.queue[at - 1] == track);
                } else {
                    assert(self@.queue[at] == track);
                }
            }
        }
        false
    }

    /// Whether one more track fits into the session's count of tracks.
    pub fn room(&self) -> (b: bool)
        ensures
            b == self.has_room(),
    {
        let waiting = self.queue.len();
        if self.active_track.is_some() {
            assert(self@.play_order().len() == waiting + 1);
            waiting < usize::MAX - 1
        } else {
            waiting < usize::MAX
        }
    }

    /// Whether the session is idle or playing.
    pub fn phase(&self) -> (p: Phase)
        ensures
            p == self@.phase(),
    {
        if self.active_track.is_some() {
            Phase::Playing
        } else {
            Phase::Idle
        }
    }

    /// Discards the playing track, if any, and plays `track` at once. The
    /// queue stays as it is.
    ///
    /// Returns the track that was interrupted. A session without a channel
    /// refuses with `NotConnected` and does not change.
    pub fn play_now(&mut self, track: TrackHandle) -> (r: Result<Option<TrackEnd>, ErrorKind>)
        requires
            old(self).wf(),
        ensures
            final(self).wf(),
            final(self)@ == old(self)@.play_now(track),
            old(self)@.is_connected() ==> r == Ok::<Option<TrackEnd>, ErrorKind>(
                old(self)@.ended_by(true, EndCause::Stopped),
            ),
            !old(self)@.is_connected() ==> r == Err::<Option<TrackEnd>, ErrorKind>(
                ErrorKind::NotConnected,
            ),
    {
        if self.channel_id.is_none() {
            return Err(ErrorKind::NotConnected);
        }
        let ended = match self.active_track {
            Some(previous) => Some(TrackEnd { track: previous, cause: EndCause::Stopped }),
            None => None,
        };
        self.active_track = Some(track);
        Ok(ended)
    }

    /// Puts `track` behind every track of the session; where nothing plays,
    /// `track` starts at once.
    ///
    /// Returns the place of `track` in the play order, counted from 1: the
    /// track starts now exactly when that is 1. A session without a channel
    /// refuses with `NotConnected` and does not change.
    pub fn enqueue(&mut self, track: TrackHandle) -> (r: Result<usize, ErrorKind>)
        requires
            old(self).wf(),
            old(self).has_room(),
        ensures
            final(self).wf(),
            final(self)@ == old(self)@.enqueue(track),
            old(self)@.is_connected() ==> r is Ok && r->Ok_0 == old(self)@.play_order().len()
                + 1,
            old(self)@.is_connected() ==> final(self)@.play_order() == old(self)@.play_order().push(track),
            !old(self)@.is_connected() ==> r == Err::<usize, ErrorKind>(ErrorKind::NotConnected),
    {
        if self.channel_id.is_none() {
            return Err(ErrorKind::NotConnected);
        }
        if self.active_track.is_none() {
            self.active_track = Some(track);
            Ok(1)
        } else {
            self.queue.push_back(track);
            let waiting = self.queue.len();
            assert(final(self)@.play_order() =~= old(self)@.play_order().push(track));
            Ok(waiting + 1)
        }
    }

    /// Replaces the playing track by the head of the queue.
    fn promote(&mut self) -> (started: Option<TrackHandle>)
        requires
            old(self).channel_id is Some,
        ensures
            final(self).wf(),
            final(self)@ == old(self)@.promoted(),
            started == final(self)@.active_track,
    {
        let next = self.queue.pop_front();
        self.active_track = next;
        next
    }

    /// Stops the playing track and promotes the next queued one, if any.
    ///
    /// With nothing playing there is nothing to skip, and nothing changes.
    pub fn skip(&mut self) -> (out: Advance)
        requires
            old(self).wf(),
        ensures
            final(self).wf(),
            final(self)@ == old(self)@.skip(),
            old(self)@.advances(true, EndCause::Stopped, out),
            old(self)@.queue.len() == 0 ==> final(self)@.phase() == Phase::Idle
                && out.remaining_count == 0,
    {
        match self.active_track {
            Some(playing) => {
                let started = self.promote();
                Advance {
                    ended: Some(TrackEnd { track: playing, cause: EndCause::Stopped }),
                    started,
                    remaining_count: self.queue.len(),
                }
            },
            None => Advance { ended: None, started: None, remaining_count: self.queue.len() },
        }
    }

    /// Takes note that `track` has played to its end.
    ///
    /// Where `track` is the playing one, the next queued track is promoted,
    /// or the session falls idle. A report about any other track is stale
    /// and changes nothing.
    pub fn track_finished(&mut self, track: TrackHandle) -> (out: Advance)
        requires
            old(self).wf(),
        ensures
            final(self).wf(),
            final(self)@ == old(self)@.track_finished(track),
            old(self)@.advances(old(self)@.active_track == Some(track), EndCause::Finished, out),
    {
        let hit = match self.active_track {
            Some(playing) => playing == track,
            None => false,
        };
        if hit {
            let started = self.promote();
            Advance {
                ended: Some(TrackEnd { track, cause: EndCause::Finished }),
                started,
                remaining_count: self.queue.len(),
            }
        } else {
            Advance { ended: None, started: None, remaining_count: self.queue.len() }
        }
    }

    /// Empties the queue into `ended`, each track as stopped.
    fn drain_queue(&mut self, ended: &mut Vec<TrackEnd>)
        ensures
            final(self)@ == (SessionState { queue: Seq::empty(), ..old(self)@ }),
            final(ended)@ == old(ended)@ + stopped(old(self)@.queue),
    {
        let ghost before = self@.queue;
        let ghost base = ended@;
        let total = self.queue.len();
        let mut taken: usize = 0;
        loop
            invariant
                total == before.len(),
                taken <= before.len(),
                self@.queue == before.subrange(taken as int, before.len() as int),
                self@ == (SessionState { queue: self@.queue, ..old(self)@ }),
                ended@ == base + stopped(before.subrange(0, taken as int)),
            ensures
                self@.queue.len() == 0,
                taken == before.len(),
            decreases before.len() - taken,
        {
            match self.queue.pop_front() {
                Some(track) => {
                    ended.push(TrackEnd { track, cause: EndCause::Stopped });
                    assert(before.subrange(taken as int, before.len() as int).drop_first()
                        =~= before.subrange(taken + 1, before.len() as int));
                    assert(base + stopped(before.subrange(0, taken + 1)) =~= (base + stopped(
                        before.subrange(0, taken as int),
                    )).push(TrackEnd { track, cause: EndCause::Stopped }));
                    taken = taken + 1;
                },
                None => {
                    break ;
                },
            }
        }
        assert(before.subrange(0, taken as int) =~= before);
        assert(self@.queue =~= Seq::<TrackHandle>::empty());
    }

    /// Clears the queue and halts the playing track. The session stays
    /// connected and is idle afterwards.
    ///
    /// Returns every track that was discarded, in play order, as stopped.
    pub fn stop_all(&mut self) -> (ended: Vec<TrackEnd>)
        requires
            old(self).wf(),
        ensures
            final(self).wf(),
            final(self)@ == old(self)@.stop_all(),
            ended@ == stopped(old(self)@.play_order()),
    {
        let mut ended: Vec<TrackEnd> = Vec::new();
        if let Some(playing) = self.active_track {
            ended.push(TrackEnd { track: playing, cause: EndCause::Stopped });
        }
        self.drain_queue(&mut ended);
        self.active_track = None;
        assert(ended@ =~= stopped(old(self)@.play_order()));
        ended
    }

    /// Takes note that the bot now sits in `channel_id`. Playback goes on.
    pub fn join(&mut self, channel_id: ChannelId)
        requires
            old(self).wf(),
        ensures
            final(self).wf(),
            final(self)@ == old(self)@.join(channel_id),
    {
        self.channel_id = Some(channel_id);
    }

    /// Takes note that the bot has left its channel: nothing can play any
    /// more, so every track is discarded.
    ///
    /// Returns the discarded tracks, in play order, as stopped.
    pub fn leave(&mut self) -> (ended: Vec<TrackEnd>)
        requires
            old(self).wf(),
        ensures
            final(self).wf(),
            final(self)@ == old(self)@.leave(),
            ended@ == stopped(old(self)@.play_order()),
    {
        let ended = self.stop_all();
        self.channel_id = None;
        ended
    }

    /// Sets the mute flag. Asking for the value that the flag already has
    /// succeeds too, and is reported as such.
    pub fn set_mute(&mut self, muted: bool) -> (status: ToggleStatus)
        requires
            old(self).wf(),
        ensures
            final(self).wf(),
            final(self)@ == old(self)@.set_mute(muted),
            status == (if old(self)@.muted == muted {
                ToggleStatus::AlreadyInState
            } else {
                ToggleStatus::Changed
            }),
    {
        if self.muted == muted {
            ToggleStatus::AlreadyInState
        } else {
            self.muted = muted;
            ToggleStatus::Changed
        }
    }

    /// Sets the deafen flag. Asking for the value that the flag already has
    /// succeeds too, and is reported as such.
    pub fn set_deafen(&mut self, deafened: bool) -> (status: ToggleStatus)
        requires
            old(self).wf(),
        ensures
            final(self).wf(),
            final(self)@ == old(self)@.set_deafen(deafened),
            status == (if old(self)@.deafened == deafened {
                ToggleStatus::AlreadyInState
            } else {
                ToggleStatus::Changed
            }),
    {
        if self.deafened == deafened {
            ToggleStatus::AlreadyInState
        } else {
            self.deafened = deafened;
            ToggleStatus::Changed
        }
    }
}

} // verus!
