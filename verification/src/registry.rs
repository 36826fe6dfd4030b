//! The process-wide table of voice sessions, one per guild at most.
use vstd::prelude::*;
use crate::errors::{ConnectError, ConnectionHandle, DisconnectError, ErrorKind};
use crate::ids::{ChannelId, TenantId};
use crate::session::{SessionState, TrackEnd, VoiceSession, stopped};

verus! {

/// Whether no two of `sessions` belong to the same guild.
spec fn distinct_tenants(sessions: Seq<VoiceSession>) -> bool {
    forall|i: int, j: int|
        0 <= i < sessions.len() && 0 <= j < sessions.len() && i != j ==> #[trigger] sessions[i]@.tenant_id
            != #[trigger] sessions[j]@.tenant_id
}

/// Whether `sessions` holds a session of `tenant_id`.
spec fn holds_tenant(sessions: Seq<VoiceSession>, tenant_id: TenantId) -> bool {
    exists|i: int| 0 <= i < sessions.len() && #[trigger] sessions[i]@.tenant_id == tenant_id
}

/// The place of the session of `tenant_id` in `sessions`.
spec fn place_of(sessions: Seq<VoiceSession>, tenant_id: TenantId) -> int {
    choose|i: int| 0 <= i < sessions.len() && #[trigger] sessions[i]@.tenant_id == tenant_id
}

/// The table that `sessions` stands for.
spec fn table_of(sessions: Seq<VoiceSession>) -> Map<TenantId, SessionState> {
    Map::new(
        |t: TenantId| holds_tenant(sessions, t),
        |t: TenantId| sessions[place_of(sessions, t)]@,
    )
}

/// How many of `sessions` belong to `tenant_id`.
spec fn count_of(sessions: Seq<VoiceSession>, tenant_id: TenantId) -> nat
    decreases sessions.len(),
{
    if sessions.len() == 0 {
        0
    } else {
        count_of(sessions.drop_last(), tenant_id) + (if sessions.last()@.tenant_id == tenant_id {
            1nat
        } else {
            0nat
        })
    }
}

/// With distinct guilds, the table holds at place `i`'s guild what stands at
/// place `i`.
proof fn lemma_table_at(sessions: Seq<VoiceSession>, i: int)
    requires
        distinct_tenants(sessions),
        0 <= i < sessions.len(),
    ensures
        table_of(sessions).contains_key(sessions[i]@.tenant_id),
        table_of(sessions)[sessions[i]@.tenant_id] == sessions[i]@,
        place_of(sessions, sessions[i]@.tenant_id) == i,
{
    let t = sessions[i]@.tenant_id;
    assert(holds_tenant(sessions, t));
    let j = place_of(sessions, t);
    assert(0 <= j < sessions.len() && sessions[j]@.tenant_id == t);
}

/// A guild has as many sessions as the table has entries for it: one or
/// none.
proof fn lemma_count_of(sessions: Seq<VoiceSession>, tenant_id: TenantId)
    requires
        distinct_tenants(sessions),
    ensures
        count_of(sessions, tenant_id) <= 1,
        count_of(sessions, tenant_id) == 1 <==> holds_tenant(sessions, tenant_id),
    decreases sessions.len(),
{
    if sessions.len() > 0 {
        let front = sessions.drop_last();
        assert forall|i: int, j: int|
            0 <= i < front.len() && 0 <= j < front.len() && i != j implies #[trigger] front[i]@.tenant_id
            != #[trigger] front[j]@.tenant_id by {
            assert(front[i] == sessions[i] && front[j] == sessions[j]);
        }
        lemma_count_of(front, tenant_id);
        let last = sessions.len() - 1;
        if holds_tenant(front, tenant_id) {
            let i = place_of(front, tenant_id);
            assert(front[i] == sessions[i]);
            assert(sessions[i]@.tenant_id == tenant_id);
            assert(sessions[last]@.tenant_id != sessions[i]@.tenant_id);
        }
        if holds_tenant(sessions, tenant_id) {
            let i = place_of(sessions, tenant_id);
            if i < last {
                assert(front[i] == sessions[i]);
                assert(holds_tenant(front, tenant_id));
            }
        }
        if sessions.last()@.tenant_id == tenant_id {
            assert(sessions[last]@.tenant_id == tenant_id);
        }
    }
}

/// Replacing the session at place `i` by another session of the same guild
/// changes the table at that guild and nowhere else.
proof fn lemma_table_update(sessions: Seq<VoiceSession>, i: int, next: VoiceSession)
    requires
        distinct_tenants(sessions),
        0 <= i < sessions.len(),
        next@.tenant_id == sessions[i]@.tenant_id,
    ensures
        distinct_tenants(sessions.update(i, next)),
        table_of(sessions.update(i, next)) == table_of(sessions).insert(next@.tenant_id, next@),
{
    let after = sessions.update(i, next);
    assert forall|a: int, b: int|
        0 <= a < after.len() && 0 <= b < after.len() && a != b implies #[trigger] after[a]@.tenant_id
        != #[trigger] after[b]@.tenant_id by {
        assert(after[a]@.tenant_id == sessions[a]@.tenant_id);
        assert(after[b]@.tenant_id == sessions[b]@.tenant_id);
    }
    assert forall|t: TenantId| holds_tenant(after, t) == holds_tenant(sessions, t) by {
        if holds_tenant(after, t) {
            let j = place_of(after, t);
            assert(sessions[j]@.tenant_id == t);
        }
        if holds_tenant(sessions, t) {
            let j = place_of(sessions, t);
            assert(after[j]@.tenant_id == t);
        }
    }
    lemma_table_at(sessions, i);
    assert forall|t: TenantId| holds_tenant(after, t) implies #[trigger] table_of(after)[t]
        == table_of(sessions).insert(next@.tenant_id, next@)[t] by {
        let j = place_of(after, t);
        lemma_table_at(after, j);
        assert(sessions[j]@.tenant_id == t);
        lemma_table_at(sessions, j);
    }
    assert(table_of(after) =~= table_of(sessions).insert(next@.tenant_id, next@));
}

/// A session of a guild that has none yet joins the table as a new entry.
proof fn lemma_table_push(sessions: Seq<VoiceSession>, next: VoiceSession)
    requires
        distinct_tenants(sessions),
        !holds_tenant(sessions, next@.tenant_id),
    ensures
        distinct_tenants(sessions.push(next)),
        table_of(sessions.push(next)) == table_of(sessions).insert(next@.tenant_id, next@),
{
    let after = sessions.push(next);
    let last = sessions.len() as int;
    assert forall|a: int, b: int|
        0 <= a < after.len() && 0 <= b < after.len() && a != b implies #[trigger] after[a]@.tenant_id
        != #[trigger] after[b]@.tenant_id by {
        if a < last {
            assert(after[a] == sessions[a]);
        }
        if b < last {
            assert(after[b] == sessions[b]);
        }
    }
    assert forall|t: TenantId|
        holds_tenant(after, t) == (holds_tenant(sessions, t) || t == next@.tenant_id) by {
        if holds_tenant(after, t) {
            let j = place_of(after, t);
            if j < last {
                assert(sessions[j]@.tenant_id == t);
            }
        }
        if holds_tenant(sessions, t) {
            let j = place_of(sessions, t);
            assert(after[j]@.tenant_id == t);
        }
        if t == next@.tenant_id {
            assert(after[last]@.tenant_id == t);
        }
    }
    assert forall|t: TenantId| holds_tenant(after, t) implies #[trigger] table_of(after)[t]
        == table_of(sessions).insert(next@.tenant_id, next@)[t] by {
        let j = place_of(after, t);
        lemma_table_at(after, j);
        if j < last {
            assert(sessions[j]@.tenant_id == t);
            lemma_table_at(sessions, j);
        }
    }
    assert(table_of(after) =~= table_of(sessions).insert(next@.tenant_id, next@));
}

/// Taking the session at place `i` out of the list takes its guild out of
/// the table and nothing else.
proof fn lemma_table_remove(sessions: Seq<VoiceSession>, i: int)
    requires
        distinct_tenants(sessions),
        0 <= i < sessions.len(),
    ensures
        distinct_tenants(sessions.remove(i)),
        table_of(sessions.remove(i)) == table_of(sessions).remove(sessions[i]@.tenant_id),
{
    let after = sessions.remove(i);
    let gone = sessions[i]@.tenant_id;
    assert forall|a: int| 0 <= a < after.len() implies #[trigger] after[a] == sessions[if a < i {
        a
    } else {
        a + 1
    }] by {}
    assert forall|a: int, b: int|
        0 <= a < after.len() && 0 <= b < after.len() && a != b implies #[trigger] after[a]@.tenant_id
        != #[trigger] after[b]@.tenant_id by {
        let a0 = if a < i { a } else { a + 1 };
        let b0 = if b < i { b } else { b + 1 };
        assert(after[a] == sessions[a0] && after[b] == sessions[b0]);
    }
    assert forall|t: TenantId|
        holds_tenant(after, t) == (holds_tenant(sessions, t) && t != gone) by {
        if holds_tenant(after, t) {
            let j = place_of(after, t);
            let j0 = if j < i { j } else { j + 1 };
            assert(after[j] == sessions[j0]);
            assert(sessions[j0]@.tenant_id == t);
            assert(sessions[i]@.tenant_id != sessions[j0]@.tenant_id);
        }
        if holds_tenant(sessions, t) && t != gone {
            let j = place_of(sessions, t);
            let j1 = if j < i { j } else { j - 1 };
            assert(after[j1] == sessions[j]);
            assert(after[j1]@.tenant_id == t);
        }
    }
    assert forall|t: TenantId| holds_tenant(after, t) implies #[trigger] table_of(after)[t]
        == table_of(sessions).remove(gone)[t] by {
        let j = place_of(after, t);
        lemma_table_at(after, j);
        let j0 = if j < i { j } else { j + 1 };
        assert(after[j] == sessions[j0]);
        lemma_table_at(sessions, j0);
    }
    assert(table_of(after) =~= table_of(sessions).remove(gone));
}

/// A table has as many entries as the list has sessions.
proof fn lemma_table_size(sessions: Seq<VoiceSession>)
    requires
        distinct_tenants(sessions),
    ensures
        table_of(sessions).dom().finite(),
        table_of(sessions).dom().len() == sessions.len(),
    decreases sessions.len(),
{
    if sessions.len() == 0 {
        assert(table_of(sessions).dom() =~= Set::<TenantId>::empty());
    } else {
        let front = sessions.drop_last();
        let last = sessions.last();
        assert forall|i: int, j: int|
            0 <= i < front.len() && 0 <= j < front.len() && i != j implies #[trigger] front[i]@.tenant_id
            != #[trigger] front[j]@.tenant_id by {
            assert(front[i] == sessions[i] && front[j] == sessions[j]);
        }
        lemma_table_size(front);
        if holds_tenant(front, last@.tenant_id) {
            let i = place_of(front, last@.tenant_id);
            assert(front[i] == sessions[i]);
            assert(sessions[i]@.tenant_id != sessions[sessions.len() - 1]@.tenant_id);
        }
        lemma_table_push(front, last);
        assert(front.push(last) =~= sessions);
        assert(table_of(sessions).dom() =~= table_of(front).dom().insert(last@.tenant_id));
    }
}

/// The sessions of all guilds.
///
/// The sessions stand in a list, so that each can be changed where it
/// stands; the table that the list stands for is the registry's view.
pub struct VoiceSessionRegistry {
    sessions: Vec<VoiceSession>,
}

impl View for VoiceSessionRegistry {
    type V = Map<TenantId, SessionState>;

    /// The session of each guild that has one.
    closed spec fn view(&self) -> Map<TenantId, SessionState> {
        table_of(self.sessions@)
    }
}

/// The table after one call of `get_or_create`: a guild that has a session
/// keeps it as it is, a guild without one gets a fresh session where the
/// link was established, and none where it was not.
pub open spec fn admitted(
    table: Map<TenantId, SessionState>,
    tenant_id: TenantId,
    target_channel: ChannelId,
    linked: bool,
) -> Map<TenantId, SessionState> {
    if !table.contains_key(tenant_id) && linked {
        table.insert(tenant_id, SessionState::connected(tenant_id, target_channel))
    } else {
        table
    }
}

impl VoiceSessionRegistry {
    /// Every session is well formed, and no guild has two.
    pub closed spec fn wf(&self) -> bool {
        &&& distinct_tenants(self.sessions@)
        &&& forall|i: int| 0 <= i < self.sessions@.len() ==> (#[trigger] self.sessions@[i]).wf()
    }

    /// How many sessions the guild `tenant_id` has.
    pub closed spec fn session_count(&self, tenant_id: TenantId) -> nat {
        count_of(self.sessions@, tenant_id)
    }

    /// At every point a guild has one session or none, and it has one
    /// exactly when the table has an entry for it.
    pub proof fn lemma_at_most_one_session(&self, tenant_id: TenantId)
        requires
            self.wf(),
        ensures
            self.session_count(tenant_id) <= 1,
            self.session_count(tenant_id) == 1 <==> self@.contains_key(tenant_id),
    {
        lemma_count_of(self.sessions@, tenant_id);
    }

    /// The table is finite.
    pub proof fn lemma_finite(&self)
        requires
            self.wf(),
        ensures
            self@.dom().finite(),
    {
        lemma_table_size(self.sessions@);
    }

    /// Each session in the table is well formed and filed under its own
    /// guild.
    pub proof fn lemma_entries_are_sessions(&self, tenant_id: TenantId)
        requires
            self.wf(),
            self@.contains_key(tenant_id),
        ensures
            self@[tenant_id].wf(),
            self@[tenant_id].tenant_id == tenant_id,
    {
        let i = place_of(self.sessions@, tenant_id);
        assert(self.sessions@[i].wf());
    }

    /// The registry of a process that has just started: no sessions.
    pub fn new() -> (r: Self)
        ensures
            r.wf(),
            r@ == Map::<TenantId, SessionState>::empty(),
    {
        let r = VoiceSessionRegistry { sessions: Vec::new() };
        assert(r@ =~= Map::<TenantId, SessionState>::empty());
        r
    }

    /// Where the session of `tenant_id` stands in the list, if it has one.
    fn find(&self, tenant_id: TenantId) -> (place: Option<usize>)
        requires
            self.wf(),
        ensures
            match place {
                Some(i) => i < self.sessions@.len() && self.sessions@[i as int]@.tenant_id
                    == tenant_id && self@.contains_key(tenant_id) && self@[tenant_id]
                    == self.sessions@[i as int]@,
                None => !self@.contains_key(tenant_id) && !holds_tenant(self.sessions@, tenant_id),
            },
    {
        let mut i: usize = 0;
        while i < self.sessions.len()
            invariant
                self.wf(),
                i <= self.sessions@.len(),
                forall|j: int| 0 <= j < i ==> (#[trigger] self.sessions@[j])@.tenant_id != tenant_id,
            decreases self.sessions@.len() - i,
        {
            if self.sessions[i].tenant_id() == tenant_id {
                proof {
                    lemma_table_at(self.sessions@, i as int);
                }
                return Some(i);
            }
            i = i + 1;
        }
        None
    }

    /// Whether the guild `tenant_id` has a session.
    pub fn contains(&self, tenant_id: TenantId) -> (b: bool)
        requires
            self.wf(),
        ensures
            b == self@.contains_key(tenant_id),
    {
        self.find(tenant_id).is_some()
    }

    /// Whether a call of `get_or_create` for `tenant_id` would have to link
    /// up with the platform first: the guild has no session yet.
    pub fn needs_link(&self, tenant_id: TenantId) -> (b: bool)
        requires
            self.wf(),
        ensures
            b == !self@.contains_key(tenant_id),
    {
        self.find(tenant_id).is_none()
    }

    /// The number of sessions.
    pub fn len(&self) -> (n: usize)
        requires
            self.wf(),
        ensures
            n == self@.dom().len(),
    {
        proof {
            lemma_table_size(self.sessions@);
        }
        self.sessions.len()
    }

    /// The session of `tenant_id`, if the guild has one. Never waits.
    pub fn get(&self, tenant_id: TenantId) -> (found: Option<&VoiceSession>)
        requires
            self.wf(),
        ensures
            found is Some <==> self@.contains_key(tenant_id),
            found matches Some(s) ==> s.wf() && s@ == self@[tenant_id] && s@.tenant_id
                == tenant_id,
    {
        match self.find(tenant_id) {
            Some(i) => Some(&self.sessions[i]),
            None => None,
        }
    }

    /// The session of `tenant_id` for a change, if the guild has one.
    ///
    /// Whatever the caller makes of the session, as long as it stays a well
    /// formed session of the same guild, is what the table then holds for
    /// that guild.
    pub fn get_mut(&mut self, tenant_id: TenantId) -> (found: Option<&mut VoiceSession>)
        requires
            old(self).wf(),
        ensures
            found is Some <==> old(self)@.contains_key(tenant_id),
            found matches Some(s) ==> {
                &&& s.wf()
                &&& s@ == old(self)@[tenant_id]
                &&& s@.tenant_id == tenant_id
                &&& final(s).wf() && final(s)@.tenant_id == tenant_id ==> {
                    &&& final(self).wf()
                    &&& final(self)@ == old(self)@.insert(tenant_id, final(s)@)
                }
            },
            found is None ==> *final(self) == *old(self),
    {
        match self.find(tenant_id) {
            Some(i) => {
                proof {
                    let before = self.sessions@;
                    assert forall|next: VoiceSession| next@.tenant_id == tenant_id implies {
                        &&& distinct_tenants(#[trigger] before.update(i as int, next))
                        &&& table_of(before.update(i as int, next)) == table_of(before).insert(
                            tenant_id,
                            next@,
                        )
                    } by {
                        lemma_table_update(before, i as int, next);
                    }
                }
                Some(&mut self.sessions[i])
            },
            None => None,
        }
    }

    /// The session of `tenant_id`, made first where the guild has none.
    ///
    /// A guild that has a session keeps it, whatever `link` says. For a
    /// guild without one, `link` is what the platform answered to the
    /// attempt to join `target_channel`: on success a fresh session enters
    /// the table, on failure the guild stays without a session and the call
    /// fails with `ConnectionFailed`. Check and entry are one step, so
    /// however many callers attempt to join for one guild, the guild ends
    /// up with one session.
    pub fn get_or_create(
        &mut self,
        tenant_id: TenantId,
        target_channel: ChannelId,
        link: Result<ConnectionHandle, ConnectError>,
    ) -> (r: Result<&VoiceSession, ErrorKind>)
        requires
            old(self).wf(),
        ensures
            final(self).wf(),
            final(self)@ == admitted(old(self)@, tenant_id, target_channel, link is Ok),
            r is Ok <==> old(self)@.contains_key(tenant_id) || link is Ok,
            r matches Ok(s) ==> s.wf() && final(self)@.contains_key(tenant_id) && s@ == final(self)@[tenant_id],
            r matches Err(e) ==> e == ErrorKind::ConnectionFailed,
    {
        match self.find(tenant_id) {
            Some(i) => Ok(&self.sessions[i]),
            None => match link {
                Ok(_) => {
                    let fresh = VoiceSession::new(tenant_id, target_channel);
                    proof {
                        lemma_table_push(self.sessions@, fresh);
                    }
                    self.sessions.push(fresh);
                    let last = self.sessions.len() - 1;
                    proof {
                        lemma_table_at(self.sessions@, last as int);
                    }
                    Ok(&self.sessions[last])
                },
                Err(why) => Err(why.kind()),
            },
        }
    }

    /// Discards the session of `tenant_id`.
    ///
    /// `unlink` is what the platform answered to the attempt to leave the
    /// guild's voice channel, or `Ok` where the platform itself reports that
    /// the bot is gone. A guild without a session gives `NotConnected`,
    /// which a caller takes as "nothing to do". Where the platform could
    /// not leave, the session stays as it is and the call fails with
    /// `DisconnectFailed`. Otherwise the session leaves the table, and the
    /// tracks that it held are returned, in play order, as stopped.
    pub fn remove(&mut self, tenant_id: TenantId, unlink: Result<(), DisconnectError>) -> (r:
        Result<Vec<TrackEnd>, ErrorKind>)
        requires
            old(self).wf(),
        ensures
            final(self).wf(),
            !old(self)@.contains_key(tenant_id) ==> r == Err::<Vec<TrackEnd>, ErrorKind>(
                ErrorKind::NotConnected,
            ) && final(self)@ == old(self)@,
            old(self)@.contains_key(tenant_id) && unlink is Err ==> r == Err::<
                Vec<TrackEnd>,
                ErrorKind,
            >(ErrorKind::DisconnectFailed) && final(self)@ == old(self)@,
            old(self)@.contains_key(tenant_id) && unlink is Ok ==> r is Ok && r->Ok_0@ == stopped(
                old(self)@[tenant_id].play_order(),
            ) && final(self)@ == old(self)@.remove(tenant_id),
    {
        match self.find(tenant_id) {
            None => Err(ErrorKind::NotConnected),
            Some(i) => match unlink {
                Err(why) => Err(why.kind()),
                Ok(_) => {
                    proof {
                        lemma_table_remove(self.sessions@, i as int);
                    }
                    let mut session = self.sessions.remove(i);
                    let ended = session.stop_all();
                    Ok(ended)
                },
            },
        }
    }

    /// Discards every session, as at the end of the process, and returns
    /// the guilds whose connections have to be torn down, in the order in
    /// which their sessions were made.
    pub fn shutdown(&mut self) -> (tenants: Vec<TenantId>)
        requires
            old(self).wf(),
        ensures
            final(self).wf(),
            final(self)@ == Map::<TenantId, SessionState>::empty(),
            tenants@.len() == old(self)@.dom().len(),
            tenants@.no_duplicates(),
            forall|t: TenantId| tenants@.contains(t) <==> old(self)@.contains_key(t),
    {
        let mut tenants: Vec<TenantId> = Vec::new();
        let mut i: usize = 0;
        while i < self.sessions.len()
            invariant
                self.wf(),
                *self == *old(self),
                i <= self.sessions@.len(),
                tenants@.len() == i,
                forall|j: int| 0 <= j < i ==> tenants@[j] == (#[trigger] self.sessions@[j])@.tenant_id,
            decreases self.sessions@.len() - i,
        {
            tenants.push(self.sessions[i].tenant_id());
            i = i + 1;
        }
        proof {
            lemma_table_size(self.sessions@);
            assert forall|a: int, b: int|
                0 <= a < tenants@.len() && 0 <= b < tenants@.len() && a != b implies tenants@[a]
                != tenants@[b] by {
                assert(self.sessions@[a]@.tenant_id != self.sessions@[b]@.tenant_id);
            }
            assert forall|t: TenantId| tenants@.contains(t) <==> self@.contains_key(t) by {
                if tenants@.contains(t) {
                    let j = choose|j: int| 0 <= j < tenants@.len() && tenants@[j] == t;
                    assert(self.sessions@[j]@.tenant_id == t);
                }
                if self@.contains_key(t) {
                    let j = place_of(self.sessions@, t);
                    assert(tenants@[j] == t);
                }
            }
        }
        self.sessions.clear();
        assert(self@ =~= Map::<TenantId, SessionState>::empty());
        tenants
    }
}

/// The table after the attempts `attempts` to join for `tenant_id`, each a
/// target channel and whether the platform established the link, in the
/// order in which the registry took them.
pub open spec fn admitted_all(
    table: Map<TenantId, SessionState>,
    tenant_id: TenantId,
    attempts: Seq<(ChannelId, bool)>,
) -> Map<TenantId, SessionState>
    decreases attempts.len(),
{
    if attempts.len() == 0 {
        table
    } else {
        admitted(
            admitted_all(table, tenant_id, attempts.drop_last()),
            tenant_id,
            attempts.last().0,
            attempts.last().1,
        )
    }
}

/// However many attempts to join race for one guild, and in whatever order
/// the registry takes them, the guild ends up with one session or none: a
/// session that was there stays untouched; else the first attempt whose
/// link stands makes the session, every later one reuses it, and without
/// such an attempt the guild stays without. No other guild is affected.
pub proof fn lemma_racing_joins_share_one_session(
    table: Map<TenantId, SessionState>,
    tenant_id: TenantId,
    attempts: Seq<(ChannelId, bool)>,
)
    ensures
        forall|t: TenantId|
            t != tenant_id ==> (#[trigger] admitted_all(table, tenant_id, attempts).contains_key(t)
                <==> table.contains_key(t)),
        forall|t: TenantId|
            t != tenant_id && table.contains_key(t) ==> #[trigger] admitted_all(
                table,
                tenant_id,
                attempts,
            )[t] == table[t],
        table.contains_key(tenant_id) ==> admitted_all(table, tenant_id, attempts) == table,
        !table.contains_key(tenant_id) ==> (admitted_all(table, tenant_id, attempts).contains_key(
            tenant_id,
        ) <==> exists|i: int| 0 <= i < attempts.len() && (#[trigger] attempts[i]).1),
        !table.contains_key(tenant_id) && admitted_all(table, tenant_id, attempts).contains_key(
            tenant_id,
        ) ==> exists|i: int|
            0 <= i < attempts.len() && (#[trigger] attempts[i]).1 && admitted_all(
                table,
                tenant_id,
                attempts,
            )[tenant_id] == SessionState::connected(tenant_id, attempts[i].0) && forall|j: int|
                0 <= j < i ==> !(#[trigger] attempts[j]).1,
    decreases attempts.len(),
{
    if attempts.len() > 0 {
        let front = attempts.drop_last();
        let last = attempts.len() - 1;
        lemma_racing_joins_share_one_session(table, tenant_id, front);
        let mid = admitted_all(table, tenant_id, front);
        let end = admitted_all(table, tenant_id, attempts);
        assert forall|i: int| 0 <= i < front.len() implies front[i] == attempts[i] by {}
        if !table.contains_key(tenant_id) {
            if mid.contains_key(tenant_id) {
                let i = choose|i: int|
                    0 <= i < front.len() && (#[trigger] front[i]).1 && mid[tenant_id]
                        == SessionState::connected(tenant_id, front[i].0) && forall|j: int|
                        0 <= j < i ==> !(#[trigger] front[j]).1;
                assert(attempts[i].1);
                assert(end[tenant_id] == SessionState::connected(tenant_id, attempts[i].0));
                assert forall|j: int| 0 <= j < i implies !(#[trigger] attempts[j]).1 by {
                    assert(!front[j].1);
                }
            } else {
                assert forall|j: int| 0 <= j < last implies !(#[trigger] attempts[j]).1 by {
                    if attempts[j].1 {
                        assert(front[j].1);
                    }
                }
                if attempts[last].1 {
                    assert(end[tenant_id] == SessionState::connected(
                        tenant_id,
                        attempts[last].0,
                    ));
                } else {
                    assert(end == mid);
                    if exists|i: int| 0 <= i < attempts.len() && (#[trigger] attempts[i]).1 {
                        let i = choose|i: int| 0 <= i < attempts.len() && (#[trigger] attempts[i]).1;
                        assert(i < last);
                    }
                }
            }
        }
    }
}

/// Guilds do not wait for each other: what is done for one guild and what
/// is done for another may be applied in either order, with the same
/// table in the end. This holds for joining, for leaving, and for any
/// change of a session.
pub proof fn lemma_guilds_are_independent(
    table: Map<TenantId, SessionState>,
    one: TenantId,
    other: TenantId,
    one_channel: ChannelId,
    other_channel: ChannelId,
    one_linked: bool,
    other_linked: bool,
    one_next: SessionState,
    other_next: SessionState,
)
    requires
        one != other,
    ensures
        admitted(admitted(table, one, one_channel, one_linked), other, other_channel, other_linked)
            == admitted(
            admitted(table, other, other_channel, other_linked),
            one,
            one_channel,
            one_linked,
        ),
        table.insert(one, one_next).insert(other, other_next) == table.insert(
            other,
            other_next,
        ).insert(one, one_next),
        table.remove(one).remove(other) == table.remove(other).remove(one),
        table.insert(one, one_next).remove(other) == table.remove(other).insert(one, one_next),
        admitted(table, one, one_channel, one_linked).remove(other) == admitted(
            table.remove(other),
            one,
            one_channel,
            one_linked,
        ),
{
    assert(admitted(
        admitted(table, one, one_channel, one_linked),
        other,
        other_channel,
        other_linked,
    ) =~= admitted(
        admitted(table, other, other_channel, other_linked),
        one,
        one_channel,
        one_linked,
    ));
    assert(table.insert(one, one_next).insert(other, other_next) =~= table.insert(
        other,
        other_next,
    ).insert(one, one_next));
    assert(table.remove(one).remove(other) =~= table.remove(other).remove(one));
    assert(table.insert(one, one_next).remove(other) =~= table.remove(other).insert(
        one,
        one_next,
    ));
    assert(admitted(table, one, one_channel, one_linked).remove(other) =~= admitted(
        table.remove(other),
        one,
        one_channel,
        one_linked,
    ));
}

} // verus!
