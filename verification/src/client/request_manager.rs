//! The client's watch over its requests: each request is noted when it goes
//! out, and a periodic check retires those that waited longer than the
//! request timeout, so that their callers get `SerialTimeOut`.
use std::time::Instant;
use vstd::prelude::*;

use crate::clock::{instant_now, millis_since};
use crate::timeouts::{oldest_serials, overdue_tail, TimeoutQueue};

verus! {

/// The requests of one client, each with the millisecond it went out, newest
/// first, and a handle on the client whose requests they are.
pub struct RequestManager<W> {
    queue: TimeoutQueue,
    request_out_time: u32,
    netx_client: W,
    clock: Instant,
}

impl<W> RequestManager<W> {
    /// The waiting requests, newest first, with their stamps.
    pub closed spec fn entries(&self) -> Seq<(i64, u64)> {
        self.queue@
    }

    /// The request timeout in milliseconds.
    pub closed spec fn timeout(&self) -> u32 {
        self.request_out_time
    }

    /// The client handle.
    pub closed spec fn client(&self) -> W {
        self.netx_client
    }

    /// A manager with no requests.
    pub fn new(request_out_time: u32, netx_client: W) -> (m: RequestManager<W>)
        ensures
            m.entries() == Seq::<(i64, u64)>::empty(),
            m.timeout() == request_out_time,
            m.client() == netx_client,
    {
        RequestManager { queue: TimeoutQueue::new(), request_out_time, netx_client, clock: instant_now() }
    }

    /// The client handle.
    pub fn netx_client(&self) -> (w: &W)
        ensures
            *w == self.client(),
    {
        &self.netx_client
    }

    /// The request timeout in milliseconds.
    pub fn request_out_time(&self) -> (t: u32)
        ensures
            t == self.timeout(),
    {
        self.request_out_time
    }

    /// Notes that the request with this serial went out now.
    pub fn set(&mut self, session_id: i64)
        ensures
            exists|stamp: u64| final(self).entries() == seq![(session_id, stamp)] + old(self).entries(),
            final(self).timeout() == old(self).timeout(),
            final(self).client() == old(self).client(),
    {
        let stamp = millis_since(&self.clock);
        self.queue.push(session_id, stamp);
    }

    /// Retires the requests that are overdue at the millisecond `now`, from
    /// the oldest up to the first that is not, and returns their serials,
    /// oldest first.
    pub fn check_at(&mut self, now: u64) -> (gone: Vec<i64>)
        ensures
            final(self).entries() == old(self).entries().subrange(
                0,
                old(self).entries().len() - overdue_tail(old(self).entries(), now, old(self).timeout()),
            ),
            gone@ == oldest_serials(old(self).entries(), overdue_tail(old(self).entries(), now, old(self).timeout())),
            final(self).timeout() == old(self).timeout(),
            final(self).client() == old(self).client(),
    {
        self.queue.expire(now, self.request_out_time)
    }

    /// Retires the requests that are overdue now (see `check_at`).
    pub fn check(&mut self) -> (gone: Vec<i64>)
        ensures
            exists|now: u64|
                final(self).entries() == old(self).entries().subrange(
                    0,
                    old(self).entries().len() - overdue_tail(old(self).entries(), now, old(self).timeout()),
                ) && gone@ == oldest_serials(
                    old(self).entries(),
                    overdue_tail(old(self).entries(), now, old(self).timeout()),
                ),
            final(self).timeout() == old(self).timeout(),
            final(self).client() == old(self).client(),
    {
        let now = millis_since(&self.clock);
        self.check_at(now)
    }
}

} // verus!
