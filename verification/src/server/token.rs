//! The state of one session on the server: its id, its controller, the link
//! to its client while connected, the calls it made to the client that wait
//! for their answer, its serial counter and the ages of those calls.
use data_rw::DataOwnedReader;
use std::time::Instant;
use vstd::prelude::*;

use crate::clock::{instant_now, millis_since};
use crate::pending::{PendingCalls, SerialCounter};
use crate::timeouts::{oldest_serials, overdue_tail, TimeoutQueue};
use crate::wire::{anyhow_msg, send_once};

verus! {

/// A session. `C` is its controller, `P` the link to its client.
pub struct AsyncToken<C, P> {
    session_id: i64,
    controller: Option<C>,
    peer: Option<P>,
    result_dict: PendingCalls<oneshot::Sender<Result<DataOwnedReader, anyhow::Error>>>,
    serial_atomic: SerialCounter,
    request_queue: TimeoutQueue,
    clock: Instant,
}

/// The calls of `waiting` without those whose serials are in `gone`.
pub open spec fn without_serials<V>(waiting: Map<i64, V>, gone: Seq<i64>) -> Map<i64, V> {
    waiting.remove_keys(gone.to_set())
}

impl<C, P> AsyncToken<C, P> {
    /// The session id.
    pub closed spec fn session(&self) -> i64 {
        self.session_id
    }

    /// The controller, once set.
    pub closed spec fn controller_spec(&self) -> Option<C> {
        self.controller
    }

    /// The link to the client, while connected.
    pub closed spec fn link(&self) -> Option<P> {
        self.peer
    }

    /// The calls waiting for their answer, by serial.
    pub closed spec fn waiting(&self) -> Map<i64, oneshot::Sender<Result<DataOwnedReader, anyhow::Error>>> {
        self.result_dict@
    }

    /// The calls that went out, newest first, with their stamps.
    pub closed spec fn requests(&self) -> Seq<(i64, u64)> {
        self.request_queue@
    }

    /// The next serial to hand out.
    pub closed spec fn next_serial(&self) -> i64 {
        self.serial_atomic@
    }

    /// A new session with this id: no controller, no link, no calls; its
    /// first serial is 1.
    pub fn new(session_id: i64) -> (t: Self)
        ensures
            t.session() == session_id,
            t.controller_spec() is None,
            t.link() is None,
            t.waiting() == Map::<i64, oneshot::Sender<Result<DataOwnedReader, anyhow::Error>>>::empty(),
            t.requests() == Seq::<(i64, u64)>::empty(),
            t.next_serial() == 1,
    {
        AsyncToken {
            session_id,
            controller: None,
            peer: None,
            result_dict: PendingCalls::new(),
            serial_atomic: SerialCounter::new(),
            request_queue: TimeoutQueue::new(),
            clock: instant_now(),
        }
    }

    /// The session id.
    pub fn get_session_id(&self) -> (id: i64)
        ensures
            id == self.session(),
    {
        self.session_id
    }

    /// Hands out a serial for a new call.
    pub fn new_serial(&mut self) -> (s: i64)
        ensures
            s == old(self).next_serial(),
            final(self).next_serial() == (if s == i64::MAX {
                i64::MIN
            } else {
                (s + 1) as i64
            }),
            final(self).session() == old(self).session(),
            final(self).link() == old(self).link(),
            final(self).waiting() == old(self).waiting(),
            final(self).requests() == old(self).requests(),
    {
        self.serial_atomic.new_serial()
    }

    /// Sets the controller.
    pub fn set_controller(&mut self, controller: C)
        ensures
            final(self).controller_spec() == Some(controller),
            final(self).session() == old(self).session(),
            final(self).link() == old(self).link(),
            final(self).waiting() == old(self).waiting(),
            final(self).requests() == old(self).requests(),
    {
        self.controller = Some(controller);
    }

    /// Drops the controller.
    pub fn clear_controller_fun_maps(&mut self)
        ensures
            final(self).controller_spec() is None,
            final(self).session() == old(self).session(),
            final(self).link() == old(self).link(),
            final(self).waiting() == old(self).waiting(),
            final(self).requests() == old(self).requests(),
    {
        self.controller = None;
    }

    /// The controller, once set.
    pub fn controller(&self) -> (c: Option<&C>)
        ensures
            c == match self.controller_spec() {
                Some(x) => Some(&x),
                None => None::<&C>,
            },
    {
        match &self.controller {
            Some(c) => Some(c),
            None => None,
        }
    }

    /// Sets or clears the link to the client.
    pub fn set_peer(&mut self, peer: Option<P>)
        ensures
            final(self).link() == peer,
            final(self).session() == old(self).session(),
            final(self).controller_spec() == old(self).controller_spec(),
            final(self).waiting() == old(self).waiting(),
            final(self).requests() == old(self).requests(),
    {
        self.peer = peer;
    }

    /// The link to the client, while connected.
    pub fn get_peer(&self) -> (p: Option<&P>)
        ensures
            p == match self.link() {
                Some(x) => Some(&x),
                None => None::<&P>,
            },
    {
        match &self.peer {
            Some(p) => Some(p),
            None => None,
        }
    }

    /// Registers a call to the client before it goes out, and notes when it
    /// went out: refused where the client is not connected or a call with this
    /// serial already waits, and then nothing changes.
    pub fn begin_call(
        &mut self,
        serial: i64,
        tx: oneshot::Sender<Result<DataOwnedReader, anyhow::Error>>,
    ) -> (res: Result<(), anyhow::Error>)
        ensures
            res is Ok <==> old(self).link() is Some && !old(self).waiting().contains_key(serial),
            res is Ok ==> final(self).waiting() == old(self).waiting().insert(serial, tx) && exists|
                stamp: u64,
            | final(self).requests() == seq![(serial, stamp)] + old(self).requests(),
            res is Err ==> final(self).waiting() == old(self).waiting() && final(self).requests()
                == old(self).requests(),
            final(self).session() == old(self).session(),
            final(self).link() == old(self).link(),
            final(self).next_serial() == old(self).next_serial(),
    {
        if self.peer.is_none() {
            return Err(anyhow_msg("call not connect"));
        }
        match self.result_dict.register(serial, tx) {
            Ok(()) => {
                let stamp = millis_since(&self.clock);
                self.request_queue.push(serial, stamp);
                Ok(())
            },
            Err(_) => Err(anyhow_msg("serial is have")),
        }
    }

    /// Takes out the call waiting under `serial`, to hand it its answer.
    pub fn take_waiting(&mut self, serial: i64) -> (res: Option<
        oneshot::Sender<Result<DataOwnedReader, anyhow::Error>>,
    >)
        ensures
            old(self).waiting().contains_key(serial) ==> res == Some(old(self).waiting()[serial])
                && final(self).waiting() == old(self).waiting().remove(serial),
            !old(self).waiting().contains_key(serial) ==> res is None && final(self).waiting()
                == old(self).waiting(),
            final(self).requests() == old(self).requests(),
            final(self).session() == old(self).session(),
            final(self).link() == old(self).link(),
    {
        self.result_dict.take(serial)
    }

    /// Fails the call waiting under `serial`, if there is one, with `err`; an
    /// error where its receiver is already gone.
    pub fn set_error(&mut self, serial: i64, err: anyhow::Error) -> (res: Result<(), anyhow::Error>)
        ensures
            final(self).waiting() == old(self).waiting().remove(serial),
            !old(self).waiting().contains_key(serial) ==> res is Ok,
            final(self).requests() == old(self).requests(),
            final(self).session() == old(self).session(),
            final(self).link() == old(self).link(),
    {
        match self.result_dict.take(serial) {
            Some(tx) => {
                if send_once(tx, Err(err)) {
                    Ok(())
                } else {
                    Err(anyhow_msg("rx is close"))
                }
            },
            None => {
                assert(old(self).waiting().remove(serial) =~= old(self).waiting());
                Ok(())
            },
        }
    }

    /// Fails, with "time out", every call overdue at the millisecond `now`,
    /// from the oldest up to the first that is not.
    pub fn check_request_timeout_at(&mut self, now: u64, request_out_time: u32)
        ensures
            final(self).requests() == old(self).requests().subrange(
                0,
                old(self).requests().len() - overdue_tail(old(self).requests(), now, request_out_time),
            ),
            final(self).waiting() == without_serials(
                old(self).waiting(),
                oldest_serials(old(self).requests(), overdue_tail(old(self).requests(), now, request_out_time)),
            ),
            final(self).session() == old(self).session(),
            final(self).link() == old(self).link(),
    {
        proof {
            crate::timeouts::lemma_overdue_tail_bound(self.requests(), now, request_out_time);
        }
        let gone = self.request_queue.expire(now, request_out_time);
        let ghost w0 = self.waiting();
        let mut i: usize = 0;
        while i < gone.len()
            invariant
                i <= gone.len(),
                self.waiting() == without_serials(w0, gone@.take(i as int)),
                self.requests() == old(self).requests().subrange(
                    0,
                    old(self).requests().len() - overdue_tail(old(self).requests(), now, request_out_time),
                ),
                self.session() == old(self).session(),
                self.link() == old(self).link(),
            decreases gone.len() - i,
        {
            let serial = gone[i];
            let _ = self.set_error(serial, anyhow_msg("time out"));
            proof {
                assert(gone@.take(i + 1) =~= gone@.take(i as int).push(serial));
                gone@.take(i as int).lemma_push_to_set_commute(serial);
                assert(self.waiting() =~= without_serials(w0, gone@.take(i + 1)));
            }
            i = i + 1;
        }
        proof {
            assert(gone@.take(gone.len() as int) =~= gone@);
        }
    }

    /// Fails, with "time out", every call overdue now (see
    /// `check_request_timeout_at`).
    pub fn check_request_timeout(&mut self, request_out_time: u32)
        ensures
            exists|now: u64|
                final(self).requests() == old(self).requests().subrange(
                    0,
                    old(self).requests().len() - overdue_tail(old(self).requests(), now, request_out_time),
                ) && final(self).waiting() == without_serials(
                    old(self).waiting(),
                    oldest_serials(
                        old(self).requests(),
                        overdue_tail(old(self).requests(), now, request_out_time),
                    ),
                ),
            final(self).session() == old(self).session(),
            final(self).link() == old(self).link(),
    {
        let now = millis_since(&self.clock);
        self.check_request_timeout_at(now, request_out_time);
    }
}

} // verus!
