//! Pairing: at most one session waits for an opponent, and the next arrival
//! is paired with it.

use vstd::prelude::*;

verus! {

/// Holds the one session, if any, that waits for an opponent.
pub struct Matchmaker<T> {
    pending: Option<T>,
}

impl<T> View for Matchmaker<T> {
    type V = Option<T>;

    /// The session that waits, if one does.
    closed spec fn view(&self) -> Option<T> {
        self.pending
    }
}

impl<T> Matchmaker<T> {
    /// A matchmaker with nobody waiting.
    pub fn new() -> (matchmaker: Self)
        ensures
            matchmaker@ is None,
    {
        Matchmaker { pending: None }
    }

    /// Whether a session waits for an opponent.
    pub fn is_waiting(&self) -> (waiting: bool)
        ensures
            waiting == (self@ is Some),
    {
        self.pending.is_some()
    }

    /// Takes in a session that has just arrived. With nobody waiting, it
    /// waits and no pair is made. Otherwise the one that waited and the new
    /// one come back as a pair, the one that waited first, and nobody waits
    /// any more.
    pub fn arrive(&mut self, session: T) -> (pair: Option<(T, T)>)
        ensures
            old(self)@ is None ==> pair is None && final(self)@ == Some(session),
            old(self)@ is Some ==> pair == Some((old(self)@->0, session)) && final(self)@ is None,
    {
        match self.pending.take() {
            Some(first) => Some((first, session)),
            None => {
                self.pending = Some(session);
                None
            },
        }
    }
}

} // verus!
