//! The in-memory map from guild identifier to its session: the single owner
//! of "what the bot is doing right now" per guild.

use vstd::prelude::*;
use std::collections::HashMap;
use crate::session::{GuildSession, SessionModel};

verus! {

broadcast use vstd::std_specs::hash::group_hash_axioms;

/// Registry of the live guild sessions, keyed by guild identifier.
pub struct GuildSessionRegistry {
    sessions: HashMap<u64, GuildSession>,
}

impl View for GuildSessionRegistry {
    type V = Map<u64, SessionModel>;

    closed spec fn view(&self) -> Map<u64, SessionModel> {
        Map::new(
            |g: u64| self.sessions@.dom().contains(g),
            |g: u64| self.sessions@[g]@,
        )
    }
}

impl GuildSessionRegistry {
    /// An empty registry: no guild has a session.
    pub fn new() -> (r: GuildSessionRegistry)
        ensures
            r@ == Map::<u64, SessionModel>::empty(),
    {
        let r = GuildSessionRegistry { sessions: HashMap::new() };
        proof {
            assert(r@ =~= Map::<u64, SessionModel>::empty());
        }
        r
    }

    /// Looks up the session of guild `g`, if any.
    pub fn get(&self, g: u64) -> (r: Option<&GuildSession>)
        ensures
            match r {
                Some(s) => self@.contains_key(g) && s@ == self@[g],
                None => !self@.contains_key(g),
            },
    {
        self.sessions.get(&g)
    }

    /// Removes and returns the session of guild `g`, if any.
    pub fn take(&mut self, g: u64) -> (r: Option<GuildSession>)
        ensures
            final(self)@ == old(self)@.remove(g),
            match r {
                Some(s) => old(self)@.contains_key(g) && s@ == old(self)@[g],
                None => !old(self)@.contains_key(g),
            },
    {
        let r = self.sessions.remove(&g);
        proof {
            assert(final(self)@ =~= old(self)@.remove(g));
        }
        r
    }

    /// Stores `s` as the session of guild `g`, replacing any previous one.
    pub fn put(&mut self, g: u64, s: GuildSession)
        ensures
            final(self)@ == old(self)@.insert(g, s@),
    {
        self.sessions.insert(g, s);
        proof {
            assert(final(self)@ =~= old(self)@.insert(g, s@));
        }
    }
}

} // verus!
