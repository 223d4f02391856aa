//! The identity of the conversation thread.
//!
//! The first question of a backend's lifetime opens a thread on the
//! platform, and every later question goes into that same thread. The
//! identity is written once: a second write changes nothing.

use vstd::prelude::*;

verus! {

/// The thread identity that results from writing `ts` where `current` stood:
/// an identity that is set stays as it is.
pub open spec fn established(current: Option<Seq<char>>, ts: Seq<char>) -> Option<Seq<char>> {
    match current {
        Some(_) => current,
        None => Some(ts),
    }
}

/// A thread identity that can be set once.
#[derive(Debug)]
pub struct ThreadIdentity {
    ts: Option<String>,
}

impl View for ThreadIdentity {
    type V = Option<Seq<char>>;

    closed spec fn view(&self) -> Option<Seq<char>> {
        self.ts.deep_view()
    }
}

impl ThreadIdentity {
    /// An identity that is not set yet.
    pub fn new() -> (thread: ThreadIdentity)
        ensures
            thread@ is None,
    {
        ThreadIdentity { ts: None }
    }

    /// The identity, if it is set.
    pub fn get(&self) -> (ts: Option<&String>)
        ensures
            ts.deep_view() == self@,
    {
        self.ts.as_ref()
    }

    /// Sets the identity to `ts` if it is not set yet, and hands `ts` back
    /// if it is.
    pub fn set(&mut self, ts: String) -> (refused: Result<(), String>)
        ensures
            final(self)@ == established(old(self)@, ts@),
            old(self)@ is None <==> refused is Ok,
            refused matches Err(back) ==> back@ == ts@,
    {
        if self.ts.is_some() {
            Err(ts)
        } else {
            self.ts = Some(ts);
            Ok(())
        }
    }
}

/// Once set, the identity withstands every later write.
pub proof fn lemma_set_once(current: Option<Seq<char>>, first: Seq<char>, later: Seq<char>)
    ensures
        established(current, first) is Some,
        established(established(current, first), later) == established(current, first),
        current is None ==> established(established(current, first), later) == Some(first),
{
}

} // verus!
