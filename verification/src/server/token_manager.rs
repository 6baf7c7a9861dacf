//! All sessions of a server, by session id, and the delayed removal of the
//! sessions whose client went away: a session is kept for the session keeping
//! time after its client disconnects, so that the client can take it up again.
use std::collections::HashMap;
use std::time::Instant;
use vstd::prelude::*;

use crate::clock::{instant_now, millis_since};
use crate::timeouts::{law_expired_were_overdue, oldest_serials, overdue, overdue_tail, TimeoutQueue};

verus! {

broadcast use vstd::std_specs::hash::group_hash_axioms;

/// The sessions a sweep drops: those among `due` whose client is still away
/// (`away` holds, index by index, whether it is).
pub open spec fn departed(due: Seq<i64>, away: Seq<bool>) -> Set<i64> {
    Set::new(|id: i64| exists|i: int| 0 <= i < due.len() && i < away.len() && due[i] == id && away[i])
}

/// The sessions a sweep over `due` hands back, in the order they are dropped.
pub open spec fn swept<Tok>(sessions: Map<i64, Tok>, due: Seq<i64>, away: Seq<bool>) -> Seq<Tok>
    decreases due.len(),
{
    if due.len() == 0 {
        Seq::empty()
    } else {
        let n = due.len() - 1;
        let before = due.take(n);
        let left = sessions.remove_keys(departed(before, away));
        if n < away.len() && away[n] && left.contains_key(due[n]) {
            swept(sessions, before, away).push(left[due[n]])
        } else {
            swept(sessions, before, away)
        }
    }
}

/// The sessions of a server. `F` makes a controller for a new session, `Tok`
/// is a session handle.
pub struct AsyncTokenManager<F, Tok> {
    impl_controller: F,
    dict: HashMap<i64, Tok>,
    request_out_time: u32,
    session_save_time: u32,
    request_disconnect_clear_queue: TimeoutQueue,
    clock: Instant,
}

impl<F, Tok> AsyncTokenManager<F, Tok> {
    /// The sessions, by id.
    pub closed spec fn sessions(&self) -> Map<i64, Tok> {
        self.dict@
    }

    /// The sessions whose client went away, newest first, with when it did.
    pub closed spec fn disconnected(&self) -> Seq<(i64, u64)> {
        self.request_disconnect_clear_queue@
    }

    /// The request timeout, in milliseconds.
    pub closed spec fn request_timeout(&self) -> u32 {
        self.request_out_time
    }

    /// How long a session outlives its client, in milliseconds.
    pub closed spec fn keeping_time(&self) -> u32 {
        self.session_save_time
    }

    /// The maker of controllers.
    pub closed spec fn maker(&self) -> F {
        self.impl_controller
    }

    /// A manager with no sessions.
    pub fn new(impl_controller: F, request_out_time: u32, session_save_time: u32) -> (m: Self)
        ensures
            m.sessions() == Map::<i64, Tok>::empty(),
            m.disconnected() == Seq::<(i64, u64)>::empty(),
            m.request_timeout() == request_out_time,
            m.keeping_time() == session_save_time,
            m.maker() == impl_controller,
    {
        AsyncTokenManager {
            impl_controller,
            dict: HashMap::new(),
            request_out_time,
            session_save_time,
            request_disconnect_clear_queue: TimeoutQueue::new(),
            clock: instant_now(),
        }
    }

    /// The maker of controllers.
    pub fn impl_controller(&self) -> (f: &F)
        ensures
            *f == self.maker(),
    {
        &self.impl_controller
    }

    /// The request timeout, in milliseconds.
    pub fn request_out_time(&self) -> (t: u32)
        ensures
            t == self.request_timeout(),
    {
        self.request_out_time
    }

    /// How long a session outlives its client, in milliseconds.
    pub fn session_save_time(&self) -> (t: u32)
        ensures
            t == self.keeping_time(),
    {
        self.session_save_time
    }

    /// Keeps a new session under its id, in place of any kept there before.
    pub fn insert_token(&mut self, session_id: i64, token: Tok)
        ensures
            final(self).sessions() == old(self).sessions().insert(session_id, token),
            final(self).disconnected() == old(self).disconnected(),
            final(self).request_timeout() == old(self).request_timeout(),
            final(self).keeping_time() == old(self).keeping_time(),
    {
        self.dict.insert(session_id, token);
    }

    /// The session with this id, if it is kept.
    pub fn get_token(&self, session_id: i64) -> (t: Option<&Tok>)
        ensures
            self.sessions().contains_key(session_id) ==> t == Some(&self.sessions()[session_id]),
            !self.sessions().contains_key(session_id) ==> t is None,
    {
        self.dict.get(&session_id)
    }

    /// All kept sessions.
    pub fn tokens(&self) -> (m: &HashMap<i64, Tok>)
        ensures
            m@ == self.sessions(),
    {
        &self.dict
    }

    /// Drops the session with this id and hands it back, if it was kept.
    pub fn remove_token(&mut self, session_id: i64) -> (t: Option<Tok>)
        ensures
            old(self).sessions().contains_key(session_id) ==> t == Some(
                old(self).sessions()[session_id],
            ),
            !old(self).sessions().contains_key(session_id) ==> t is None,
            final(self).sessions() == old(self).sessions().remove(session_id),
            final(self).disconnected() == old(self).disconnected(),
            final(self).request_timeout() == old(self).request_timeout(),
            final(self).keeping_time() == old(self).keeping_time(),
    {
        let r = self.dict.remove(&session_id);
        proof {
            if !old(self).sessions().contains_key(session_id) {
                assert(old(self).sessions().remove(session_id) =~= old(self).sessions());
            }
        }
        r
    }

    /// The session a connecting client takes up: for session id 0, none (the
    /// client gets a new session); otherwise the kept session with that id, if any.
    pub fn resolve_session(&self, session_id: i64) -> (t: Option<&Tok>)
        ensures
            session_id == 0 ==> t is None,
            session_id != 0 && self.sessions().contains_key(session_id) ==> t == Some(
                &self.sessions()[session_id],
            ),
            session_id != 0 && !self.sessions().contains_key(session_id) ==> t is None,
    {
        if session_id == 0 {
            None
        } else {
            self.get_token(session_id)
        }
    }

    /// Decides the fate of a session whose departure is due: dropped and handed
    /// back where its client is still away; kept, and nothing handed back, where
    /// the client has come back.
    pub fn drop_departed(&mut self, session_id: i64, still_away: bool) -> (t: Option<Tok>)
        ensures
            still_away && old(self).sessions().contains_key(session_id) ==> t == Some(
                old(self).sessions()[session_id],
            ),
            still_away ==> final(self).sessions() == old(self).sessions().remove(session_id),
            !still_away || !old(self).sessions().contains_key(session_id) ==> t is None,
            !still_away ==> final(self).sessions() == old(self).sessions(),
            final(self).disconnected() == old(self).disconnected(),
            final(self).request_timeout() == old(self).request_timeout(),
            final(self).keeping_time() == old(self).keeping_time(),
    {
        if still_away {
            self.remove_token(session_id)
        } else {
            None
        }
    }

    /// Settles the departures that are due: for each session id in `due`,
    /// drops the session where its client is still away (`away` at the same
    /// index) and keeps it where the client has come back. Hands back the
    /// dropped sessions, in order.
    pub fn sweep_departed(&mut self, due: &Vec<i64>, away: &Vec<bool>) -> (gone: Vec<Tok>)
        requires
            due.len() == away.len(),
        ensures
            final(self).sessions() == old(self).sessions().remove_keys(departed(due@, away@)),
            gone@ == swept(old(self).sessions(), due@, away@),
            final(self).disconnected() == old(self).disconnected(),
            final(self).request_timeout() == old(self).request_timeout(),
            final(self).keeping_time() == old(self).keeping_time(),
    {
        let mut gone: Vec<Tok> = Vec::new();
        let mut i: usize = 0;
        assert(departed(due@.take(0), away@) =~= Set::<i64>::empty());
        assert(old(self).sessions().remove_keys(Set::<i64>::empty()) =~= old(self).sessions());
        while i < due.len()
            invariant
                i <= due.len(),
                due.len() == away.len(),
                self.sessions() == old(self).sessions().remove_keys(departed(due@.take(i as int), away@)),
                gone@ == swept(old(self).sessions(), due@.take(i as int), away@),
                self.disconnected() == old(self).disconnected(),
                self.request_timeout() == old(self).request_timeout(),
                self.keeping_time() == old(self).keeping_time(),
            decreases due.len() - i,
        {
            let id = due[i];
            let still_away = away[i];
            let ghost pre = due@.take(i as int);
            let ghost next = due@.take(i + 1);
            let ghost before = self.sessions();
            assert(next.take(i as int) =~= pre);
            assert(next[i as int] == id);
            if still_away {
                assert(departed(next, away@) =~= departed(pre, away@).insert(id)) by {
                    assert forall|x: i64| departed(next, away@).contains(x) implies departed(pre, away@).insert(x).contains(x) && (x == id || departed(pre, away@).contains(x)) by {
                        let j = choose|j: int| 0 <= j < next.len() && j < away@.len() && next[j] == x && away@[j];
                        if j < i {
                            assert(pre[j] == next[j]);
                        }
                    }
                    assert forall|x: i64| departed(pre, away@).contains(x) implies departed(next, away@).contains(x) by {
                        let j = choose|j: int| 0 <= j < pre.len() && j < away@.len() && pre[j] == x && away@[j];
                        assert(next[j] == pre[j]);
                    }
                    assert(departed(next, away@).contains(id)) by {
                        assert(next[i as int] == id && away@[i as int]);
                    }
                }
                assert(old(self).sessions().remove_keys(departed(pre, away@).insert(id)) =~= before.remove(id));
            } else {
                assert(departed(next, away@) =~= departed(pre, away@)) by {
                    assert forall|x: i64| departed(next, away@).contains(x) implies departed(pre, away@).contains(x) by {
                        let j = choose|j: int| 0 <= j < next.len() && j < away@.len() && next[j] == x && away@[j];
                        assert(j != i);
                        assert(pre[j] == next[j]);
                    }
                    assert forall|x: i64| departed(pre, away@).contains(x) implies departed(next, away@).contains(x) by {
                        let j = choose|j: int| 0 <= j < pre.len() && j < away@.len() && pre[j] == x && away@[j];
                        assert(next[j] == pre[j]);
                    }
                }
            }
            match self.drop_departed(id, still_away) {
                Some(t) => {
                    gone.push(t);
                },
                None => {},
            }
            i = i + 1;
        }
        assert(due@.take(due.len() as int) =~= due@);
        gone
    }

    /// Notes that the client of this session went away now.
    pub fn peer_disconnect(&mut self, session_id: i64)
        ensures
            exists|stamp: u64|
                final(self).disconnected() == seq![(session_id, stamp)] + old(self).disconnected(),
            final(self).sessions() == old(self).sessions(),
            final(self).request_timeout() == old(self).request_timeout(),
            final(self).keeping_time() == old(self).keeping_time(),
    {
        let stamp = millis_since(&self.clock);
        self.request_disconnect_clear_queue.push(session_id, stamp);
    }

    /// Takes out the departures that are older than the keeping time at the
    /// millisecond `now`, oldest first, up to the first that is not, and
    /// returns their session ids: each such session is dropped if its client is
    /// still away.
    pub fn disconnect_due_at(&mut self, now: u64) -> (due: Vec<i64>)
        ensures
            final(self).disconnected() == old(self).disconnected().subrange(
                0,
                old(self).disconnected().len() - overdue_tail(old(self).disconnected(), now, old(self).keeping_time()),
            ),
            due@ == oldest_serials(
                old(self).disconnected(),
                overdue_tail(old(self).disconnected(), now, old(self).keeping_time()),
            ),
            final(self).sessions() == old(self).sessions(),
            final(self).request_timeout() == old(self).request_timeout(),
            final(self).keeping_time() == old(self).keeping_time(),
    {
        self.request_disconnect_clear_queue.expire(now, self.session_save_time)
    }

    /// Takes out the departures that are due now (see `disconnect_due_at`).
    pub fn disconnect_due(&mut self) -> (due: Vec<i64>)
        ensures
            exists|now: u64|
                final(self).disconnected() == old(self).disconnected().subrange(
                    0,
                    old(self).disconnected().len() - overdue_tail(
                        old(self).disconnected(),
                        now,
                        old(self).keeping_time(),
                    ),
                ) && due@ == oldest_serials(
                    old(self).disconnected(),
                    overdue_tail(old(self).disconnected(), now, old(self).keeping_time()),
                ),
            final(self).sessions() == old(self).sessions(),
            final(self).request_timeout() == old(self).request_timeout(),
            final(self).keeping_time() == old(self).keeping_time(),
    {
        let now = millis_since(&self.clock);
        self.disconnect_due_at(now)
    }
}

/// Law: a client that comes back with the id of a kept session takes up that
/// very session. Once `insert_token(id, t)` has kept `t`, the removal of any
/// sessions other than `id` leaves it kept, and `resolve_session(id)` finds `t`.
pub proof fn law_session_recovery<F, Tok>(
    kept: AsyncTokenManager<F, Tok>,
    later: AsyncTokenManager<F, Tok>,
    id: i64,
    t: Tok,
    removed: Set<i64>,
)
    requires
        id != 0,
        kept.sessions().contains_key(id),
        kept.sessions()[id] == t,
        !removed.contains(id),
        later.sessions() == kept.sessions().remove_keys(removed),
    ensures
        later.sessions().contains_key(id),
        later.sessions()[id] == t,
{
}

/// Law: a sweep of departures keeps what it should. Of the departures `q`
/// (newest first), the sweep at `now` takes out the due ones (see
/// `disconnect_due_at`): every departure younger than the keeping time stays
/// queued, and the ones that stay keep their order. Of the due sessions,
/// `sweep_departed` drops exactly those whose client is still away: a session
/// whose client has come back leaves the queue but stays kept, unchanged.
pub proof fn law_disconnect_sweep<Tok>(
    q: Seq<(i64, u64)>,
    now: u64,
    keep: u32,
    sessions: Map<i64, Tok>,
    away: Seq<bool>,
    id: i64,
)
    ensures
        forall|j: int|
            0 <= j < q.len() && !overdue(#[trigger] q[j].1, now, keep) ==> j < q.len() - overdue_tail(
                q,
                now,
                keep,
            ),
        !departed(oldest_serials(q, overdue_tail(q, now, keep)), away).contains(id) ==> (
        sessions.remove_keys(departed(oldest_serials(q, overdue_tail(q, now, keep)), away)).contains_key(id)
            == sessions.contains_key(id)),
        !departed(oldest_serials(q, overdue_tail(q, now, keep)), away).contains(id) && sessions.contains_key(id)
            ==> sessions.remove_keys(departed(oldest_serials(q, overdue_tail(q, now, keep)), away))[id]
            == sessions[id],
        departed(oldest_serials(q, overdue_tail(q, now, keep)), away).contains(id) ==> !sessions.remove_keys(
            departed(oldest_serials(q, overdue_tail(q, now, keep)), away),
        ).contains_key(id),
{
    assert forall|j: int|
        0 <= j < q.len() && !overdue(#[trigger] q[j].1, now, keep) implies j < q.len() - overdue_tail(
            q,
            now,
            keep,
        ) by {
        if j >= q.len() - overdue_tail(q, now, keep) {
            law_expired_were_overdue(q, now, keep, j);
        }
    }
}

} // verus!
