//! The ordered queue of tracks that wait for playback in one session.
use vstd::prelude::*;
use std::collections::VecDeque;
use crate::ids::TrackHandle;

verus! {

/// Pending tracks of one session, first in, first out.
///
/// The queue does no locking of its own: its session is the only one to
/// touch it.
pub struct TrackQueue {
    tracks: VecDeque<TrackHandle>,
}

impl View for TrackQueue {
    type V = Seq<TrackHandle>;

    /// The pending tracks, the next one to play first.
    closed spec fn view(&self) -> Seq<TrackHandle> {
        self.tracks@
    }
}

impl TrackQueue {
    /// An empty queue.
    pub fn new() -> (q: Self)
        ensures
            q@ == Seq::<TrackHandle>::empty(),
    {
        TrackQueue { tracks: VecDeque::new() }
    }

    /// Appends `track` behind every pending track.
    pub fn push_back(&mut self, track: TrackHandle)
        ensures
            final(self)@ == old(self)@.push(track),
    {
        self.tracks.push_back(track);
    }

    /// Takes the track that has waited longest, if there is one.
    pub fn pop_front(&mut self) -> (head: Option<TrackHandle>)
        ensures
            old(self)@.len() == 0 ==> head is None && final(self)@ == old(self)@,
            old(self)@.len() > 0 ==> head == Some(old(self)@[0]) && final(self)@ == old(self)@.drop_first(),
    {
        self.tracks.pop_front()
    }

    /// The number of pending tracks.
    pub fn len(&self) -> (n: usize)
        ensures
            n == self@.len(),
    {
        self.tracks.len()
    }

    /// Whether no track is pending.
    pub fn is_empty(&self) -> (b: bool)
        ensures
            b <==> self@.len() == 0,
    {
        self.tracks.len() == 0
    }

    /// The pending track at `index`, counted from the next one to play.
    pub fn get(&self, index: usize) -> (track: Option<TrackHandle>)
        ensures
            index < self@.len() ==> track == Some(self@[index as int]),
            index >= self@.len() ==> track is None,
    {
        if index < self.tracks.len() {
            Some(self.tracks[index])
        } else {
            None
        }
    }

    /// Drops every pending track.
    pub fn clear(&mut self)
        ensures
            final(self)@ == Seq::<TrackHandle>::empty(),
    {
        self.tracks.clear();
    }
}

/// What is left of a queue holding `pushed` after `popped` calls of
/// `pop_front`.
pub open spec fn after_pops(pushed: Seq<TrackHandle>, popped: nat) -> Seq<TrackHandle>
    decreases popped,
{
    if popped == 0 || pushed.len() == 0 {
        pushed
    } else {
        after_pops(pushed.drop_first(), (popped - 1) as nat)
    }
}

/// Tracks leave a queue in the order in which they entered it, each of them
/// once: after `popped` removals from a queue that held `pushed`, the queue
/// holds `pushed` without its first `popped` entries.
pub proof fn lemma_queue_is_fifo(pushed: Seq<TrackHandle>, popped: nat)
    requires
        popped <= pushed.len(),
    ensures
        after_pops(pushed, popped) == pushed.subrange(popped as int, pushed.len() as int),
    decreases popped,
{
    if popped == 0 || pushed.len() == 0 {
        assert(pushed.subrange(0, pushed.len() as int) =~= pushed);
    } else {
        lemma_queue_is_fifo(pushed.drop_first(), (popped - 1) as nat);
        assert(pushed.drop_first().subrange(popped - 1, pushed.len() - 1) =~= pushed.subrange(
            popped as int,
            pushed.len() as int,
        ));
    }
}

} // verus!
