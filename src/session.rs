//! Supersession: only the answer to the latest query may be shown.

use vstd::prelude::*;

verus! {

/// Hands out a ticket per query; a newer query makes every older ticket stale.
#[derive(Debug)]
pub struct Session {
    latest: u64,
}

impl Session {
    /// The ticket of the latest query.
    pub closed spec fn latest(&self) -> nat {
        self.latest as nat
    }

    pub fn new() -> (r: Session)
        ensures
            r.latest() == 0,
    {
        Session { latest: 0 }
    }

    /// Starts a query and returns its ticket; `None` once the tickets are
    /// used up.
    pub fn begin(&mut self) -> (t: Option<u64>)
        ensures
            old(self).latest() < u64::MAX ==> final(self).latest() == old(self).latest() + 1
                && t == Some(final(self).latest() as u64),
            old(self).latest() == u64::MAX ==> final(self).latest() == old(self).latest()
                && t is None,
    {
        if self.latest == u64::MAX {
            return None;
        }
        self.latest = self.latest + 1;
        Some(self.latest)
    }

    /// Whether the answer for ticket `t` may still be shown: only the
    /// latest query's may.
    pub fn is_current(&self, t: u64) -> (r: bool)
        ensures
            r == (t == self.latest()),
    {
        t == self.latest
    }
}

} // verus!
