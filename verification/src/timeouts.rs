//! Queues of pending requests ordered by age, and the sweep that retires the
//! ones that waited too long: the newest entry goes in at the front, and a
//! sweep takes entries from the back while they are overdue.
use std::collections::VecDeque;
use vstd::prelude::*;

verus! {

/// Milliseconds from `stamp` to `now`, or 0 where `now` is earlier.
pub open spec fn elapsed_ms(stamp: u64, now: u64) -> u64 {
    if now >= stamp {
        (now - stamp) as u64
    } else {
        0
    }
}

/// An entry stamped at `stamp` is overdue at `now` once the elapsed
/// milliseconds reach the timeout.
pub open spec fn overdue(stamp: u64, now: u64, timeout: u32) -> bool {
    elapsed_ms(stamp, now) >= timeout
}

/// How many entries at the back of `q` are overdue, counted from the back up to
/// the first that is not.
pub open spec fn overdue_tail(q: Seq<(i64, u64)>, now: u64, timeout: u32) -> nat
    decreases q.len(),
{
    if q.len() == 0 {
        0
    } else if overdue(q.last().1, now, timeout) {
        1 + overdue_tail(q.drop_last(), now, timeout)
    } else {
        0
    }
}

/// The serials of the last `k` entries of `q`, the oldest first.
pub open spec fn oldest_serials(q: Seq<(i64, u64)>, k: nat) -> Seq<i64> {
    Seq::new(k, |j: int| q[q.len() - 1 - j].0)
}

/// A queue of `(serial, stamp)` pairs, newest at the front.
pub struct TimeoutQueue {
    entries: VecDeque<(i64, u64)>,
}

impl View for TimeoutQueue {
    type V = Seq<(i64, u64)>;

    closed spec fn view(&self) -> Seq<(i64, u64)> {
        self.entries@
    }
}

pub proof fn lemma_overdue_tail_bound(q: Seq<(i64, u64)>, now: u64, timeout: u32)
    ensures
        overdue_tail(q, now, timeout) <= q.len(),
    decreases q.len(),
{
    if q.len() > 0 {
        lemma_overdue_tail_bound(q.drop_last(), now, timeout);
    }
}

impl TimeoutQueue {
    /// An empty queue.
    pub fn new() -> (q: TimeoutQueue)
        ensures
            q@ == Seq::<(i64, u64)>::empty(),
    {
        TimeoutQueue { entries: VecDeque::new() }
    }

    /// The number of entries.
    pub fn len(&self) -> (n: usize)
        ensures
            n == self@.len(),
    {
        self.entries.len()
    }

    /// Puts a request at the front, as the newest.
    pub fn push(&mut self, serial: i64, stamp: u64)
        ensures
            final(self)@ == seq![(serial, stamp)] + old(self)@,
    {
        self.entries.push_front((serial, stamp));
    }

    /// Takes from the back every entry that is overdue at `now`, up to the first
    /// that is not, and returns their serials, the oldest first.
    pub fn expire(&mut self, now: u64, timeout: u32) -> (gone: Vec<i64>)
        ensures
            final(self)@ == old(self)@.subrange(
                0,
                old(self)@.len() - overdue_tail(old(self)@, now, timeout),
            ),
            gone@ == oldest_serials(old(self)@, overdue_tail(old(self)@, now, timeout)),
    {
        let ghost q0 = self@;
        let mut gone: Vec<i64> = Vec::new();
        proof {
            lemma_overdue_tail_bound(q0, now, timeout);
        }
        loop
            invariant_except_break
                gone.len() <= q0.len(),
                self@ == q0.subrange(0, q0.len() - gone.len()),
                gone@ == oldest_serials(q0, gone.len() as nat),
                overdue_tail(q0, now, timeout) == gone.len() + overdue_tail(self@, now, timeout),
            ensures
                self@ == q0.subrange(0, q0.len() - overdue_tail(q0, now, timeout)),
                gone@ == oldest_serials(q0, overdue_tail(q0, now, timeout)),
            decreases self@.len(),
        {
            let ghost before = self@;
            match self.entries.pop_back() {
                Some(item) => {
                    let elapsed: u64 = if now >= item.1 {
                        now - item.1
                    } else {
                        0
                    };
                    if elapsed >= timeout as u64 {
                        gone.push(item.0);
                        proof {
                            assert(before.drop_last() =~= self@);
                            assert(self@ =~= q0.subrange(0, q0.len() - gone.len()));
                            assert(gone@ =~= oldest_serials(q0, gone.len() as nat));
                        }
                    } else {
                        self.entries.push_back(item);
                        proof {
                            assert(self@ =~= before);
                        }
                        break;
                    }
                },
                None => {
                    break;
                },
            }
        }
        gone
    }
}

/// Law: a sweep leaves no overdue entry at the back, so a second sweep at the
/// same time retires nothing.
pub proof fn law_expire_settles(q: Seq<(i64, u64)>, now: u64, timeout: u32)
    ensures
        overdue_tail(q.subrange(0, q.len() - overdue_tail(q, now, timeout)), now, timeout) == 0,
    decreases q.len(),
{
    lemma_overdue_tail_bound(q, now, timeout);
    if q.len() > 0 && overdue(q.last().1, now, timeout) {
        law_expire_settles(q.drop_last(), now, timeout);
        assert(q.subrange(0, q.len() - overdue_tail(q, now, timeout)) =~= q.drop_last().subrange(
            0,
            q.drop_last().len() - overdue_tail(q.drop_last(), now, timeout),
        ));
    } else {
        assert(q.subrange(0, q.len() as int) =~= q);
    }
}

/// Law: every retired entry was overdue.
pub proof fn law_expired_were_overdue(q: Seq<(i64, u64)>, now: u64, timeout: u32, i: int)
    requires
        q.len() - overdue_tail(q, now, timeout) <= i < q.len(),
    ensures
        overdue(q[i].1, now, timeout),
    decreases q.len(),
{
    lemma_overdue_tail_bound(q, now, timeout);
    assert(overdue(q.last().1, now, timeout));
    if i < q.len() - 1 {
        law_expired_were_overdue(q.drop_last(), now, timeout, i);
        assert(q.drop_last()[i] == q[i]);
    }
}

/// Stamps that were read from one clock as the entries went in at the front:
/// no entry is stamped earlier than one behind it.
pub open spec fn stamps_in_order(q: Seq<(i64, u64)>) -> bool {
    forall|i: int, j: int| 0 <= i < j < q.len() ==> #[trigger] q[i].1 >= #[trigger] q[j].1
}

/// Law: where the stamps are in the order the entries went in, a sweep at
/// `now` retires exactly the entries that have waited the timeout or longer:
/// an entry is retired if and only if it is overdue, so no entry younger than
/// the timeout is retired and no overdue one is left behind.
pub proof fn law_sweep_retires_exactly_overdue(q: Seq<(i64, u64)>, now: u64, timeout: u32, j: int)
    requires
        stamps_in_order(q),
        0 <= j < q.len(),
    ensures
        j >= q.len() - overdue_tail(q, now, timeout) <==> overdue(q[j].1, now, timeout),
    decreases q.len(),
{
    lemma_overdue_tail_bound(q, now, timeout);
    if j >= q.len() - overdue_tail(q, now, timeout) {
        law_expired_were_overdue(q, now, timeout, j);
    } else if overdue(q[j].1, now, timeout) {
        // The last entry is at least as old as entry j, so it is overdue too,
        // and the sweep goes on into the rest of the queue.
        let n = q.len() - 1;
        assert(q[j].1 >= q[n].1);
        assert(overdue(q.last().1, now, timeout));
        let front = q.drop_last();
        assert(stamps_in_order(front)) by {
            assert forall|a: int, b: int| 0 <= a < b < front.len() implies #[trigger] front[a].1 >= #[trigger] front[b].1 by {
                assert(front[a] == q[a] && front[b] == q[b]);
            }
        }
        assert(j < n);
        assert(front[j] == q[j]);
        law_sweep_retires_exactly_overdue(front, now, timeout, j);
    }
}

} // verus!
