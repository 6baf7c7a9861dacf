//! Requests that wait for their answer, keyed by serial, and the counter that
//! hands out serials.
use std::collections::HashMap;
use vstd::prelude::*;

verus! {

broadcast use vstd::std_specs::hash::group_hash_axioms;

/// The waiting requests: for each serial, what delivers its answer.
pub struct PendingCalls<S> {
    dict: HashMap<i64, S>,
}

impl<S> View for PendingCalls<S> {
    type V = Map<i64, S>;

    closed spec fn view(&self) -> Map<i64, S> {
        self.dict@
    }
}

impl<S> PendingCalls<S> {
    /// No request waits.
    pub fn new() -> (p: PendingCalls<S>)
        ensures
            p@ == Map::<i64, S>::empty(),
    {
        PendingCalls { dict: HashMap::new() }
    }

    /// The number of waiting requests.
    pub fn len(&self) -> (n: usize)
        ensures
            n == self@.len(),
    {
        self.dict.len()
    }

    /// Whether a request with this serial waits.
    pub fn contains(&self, serial: i64) -> (b: bool)
        ensures
            b == self@.contains_key(serial),
    {
        self.dict.contains_key(&serial)
    }

    /// Records a request under its serial. A serial that is already waiting is
    /// refused and the new one handed back, the waiting one left in place.
    pub fn register(&mut self, serial: i64, tx: S) -> (res: Result<(), S>)
        ensures
            old(self)@.contains_key(serial) ==> res == Err::<(), S>(tx) && final(self)@ == old(self)@,
            !old(self)@.contains_key(serial) ==> res is Ok && final(self)@ == old(self)@.insert(
                serial,
                tx,
            ),
    {
        if self.dict.contains_key(&serial) {
            return Err(tx);
        }
        self.dict.insert(serial, tx);
        Ok(())
    }

    /// Takes out the request waiting under `serial`, if there is one.
    pub fn take(&mut self, serial: i64) -> (res: Option<S>)
        ensures
            old(self)@.contains_key(serial) ==> res == Some(old(self)@[serial]) && final(self)@
                == old(self)@.remove(serial),
            !old(self)@.contains_key(serial) ==> res is None && final(self)@ == old(self)@,
    {
        self.dict.remove(&serial)
    }
}

/// Law: the answer to a registered request goes to what was registered for it,
/// and only once.
pub proof fn law_register_then_take<S>(p: Map<i64, S>, serial: i64, tx: S)
    requires
        !p.contains_key(serial),
    ensures
        p.insert(serial, tx).contains_key(serial),
        p.insert(serial, tx)[serial] == tx,
        !p.insert(serial, tx).remove(serial).contains_key(serial),
        p.insert(serial, tx).remove(serial) == p,
{
    assert(p.insert(serial, tx).remove(serial) =~= p);
}

/// The counter that hands out request serials, starting from 1.
pub struct SerialCounter {
    next: i64,
}

impl View for SerialCounter {
    type V = i64;

    closed spec fn view(&self) -> i64 {
        self.next
    }
}

impl SerialCounter {
    /// A counter whose first serial is 1.
    pub fn new() -> (c: SerialCounter)
        ensures
            c@ == 1,
    {
        SerialCounter { next: 1 }
    }

    /// Hands out the current serial and moves on by one, wrapping at the end
    /// of the `i64` range.
    pub fn new_serial(&mut self) -> (s: i64)
        ensures
            s == old(self)@,
            final(self)@ == (if old(self)@ == i64::MAX {
                i64::MIN
            } else {
                (old(self)@ + 1) as i64
            }),
    {
        let s = self.next;
        self.next = self.next.wrapping_add(1);
        s
    }
}

} // verus!
