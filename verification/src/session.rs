//! Session store: at most one in-progress game per origin, kept as a map
//! from the origin identifier to the current board.

use vstd::prelude::*;

verus! {

broadcast use vstd::std_specs::hash::group_hash_axioms;

/// A mapping from origin identifier to the board of its one in-progress game.
pub struct SessionStore {
    games: std::collections::HashMap<u64, pleco::Board>,
}

impl View for SessionStore {
    type V = Map<u64, pleco::Board>;

    closed spec fn view(&self) -> Map<u64, pleco::Board> {
        self.games@
    }
}

impl SessionStore {
    /// An empty store: no origin owns a game.
    pub fn new() -> (s: SessionStore)
        ensures
            s@ == Map::<u64, pleco::Board>::empty(),
    {
        SessionStore { games: std::collections::HashMap::new() }
    }

    /// Whether the origin currently owns a game.
    pub fn contains(&self, origin: u64) -> (r: bool)
        ensures
            r == self@.contains_key(origin),
    {
        self.games.contains_key(&origin)
    }

    /// A borrow of the origin's board, or nothing when the origin owns no game.
    pub fn get(&self, origin: u64) -> (r: Option<&pleco::Board>)
        ensures
            match r {
                Some(b) => self@.contains_key(origin) && *b == self@[origin],
                None => !self@.contains_key(origin),
            },
    {
        self.games.get(&origin)
    }

    /// Unconditional insert or replace of the origin's game.
    pub fn put(&mut self, origin: u64, board: pleco::Board)
        ensures
            final(self)@ == old(self)@.insert(origin, board),
    {
        self.games.insert(origin, board);
    }

    /// Removes the origin's game, handing its board out if there was one.
    pub fn take(&mut self, origin: u64) -> (r: Option<pleco::Board>)
        ensures
            final(self)@ == old(self)@.remove(origin),
            match r {
                Some(b) => old(self)@.contains_key(origin) && b == old(self)@[origin],
                None => !old(self)@.contains_key(origin),
            },
    {
        self.games.remove(&origin)
    }

    /// Removes the origin's game, if any.
    pub fn remove(&mut self, origin: u64)
        ensures
            final(self)@ == old(self)@.remove(origin),
    {
        self.games.remove(&origin);
    }
}

} // verus!
