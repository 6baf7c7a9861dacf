//! Where a client keeps the session id the server gave it, so that a new
//! connection can take up the old session.
use vstd::prelude::*;

verus! {

/// A store for the session id. Implementations give back what was stored last.
pub trait SessionSave {
    /// The session id the store holds.
    spec fn stored_session_id(&self) -> i64;

    /// The stored session id.
    fn get_session_id(&self) -> (id: i64)
        ensures
            id == self.stored_session_id(),
    ;

    /// Keeps `session_id` in place of the stored one.
    fn store_session_id(&mut self, session_id: i64)
        ensures
            final(self).stored_session_id() == session_id,
    ;
}

/// A session store that keeps the id in memory only; it starts at 0, the id
/// that asks the server for a new session.
pub struct DefaultSessionStore {
    session_id: i64,
}

impl Default for DefaultSessionStore {
    fn default() -> (s: DefaultSessionStore)
        ensures
            s.stored_session_id() == 0,
    {
        DefaultSessionStore { session_id: 0 }
    }
}

impl SessionSave for DefaultSessionStore {
    closed spec fn stored_session_id(&self) -> i64 {
        self.session_id
    }

    fn get_session_id(&self) -> (id: i64) {
        self.session_id
    }

    fn store_session_id(&mut self, session_id: i64) {
        self.session_id = session_id;
    }
}

} // verus!
