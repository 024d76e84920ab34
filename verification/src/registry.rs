//! The tokens that open sessions are waiting for, by port.

use crate::text::same_text;
use std::collections::HashMap;
use vstd::prelude::*;

verus! {

broadcast use vstd::std_specs::hash::group_hash_axioms;

/// Whether `token` is what `entries` holds under `port`: both present and equal,
/// character for character.
pub open spec fn token_matches(entries: Map<u16, Seq<char>>, port: u16, token: Seq<char>) -> bool {
    entries.contains_key(port) && entries[port] == token
}

/// The outstanding tokens, each under the port of the session that it was issued
/// for. A port has at most one token at a time.
pub struct NonceRegistry {
    entries: HashMap<u16, String>,
}

impl View for NonceRegistry {
    type V = Map<u16, Seq<char>>;

    closed spec fn view(&self) -> Map<u16, Seq<char>> {
        Map::new(
            |port: u16| self.entries@.contains_key(port),
            |port: u16| self.entries@[port]@,
        )
    }
}

impl NonceRegistry {
    /// A registry without entries.
    pub fn new() -> (registry: NonceRegistry)
        ensures
            registry@ == Map::<u16, Seq<char>>::empty(),
    {
        let registry = NonceRegistry { entries: HashMap::new() };
        assert(registry@ =~= Map::<u16, Seq<char>>::empty());
        registry
    }

    /// Puts `token` under `port`; a token that was there before is replaced.
    pub fn register(&mut self, port: u16, token: String)
        ensures
            final(self)@ == old(self)@.insert(port, token@),
    {
        let _ = self.entries.insert(port, token);
        assert(self@ =~= old(self)@.insert(port, token@));
    }

    /// Tests `token` against the entry of `port`. Where they match, the entry is
    /// removed and the answer is `true`; else the registry stays as it is.
    pub fn validate_and_consume(&mut self, port: u16, token: &str) -> (accepted: bool)
        ensures
            accepted == token_matches(old(self)@, port, token@),
            final(self)@ == if accepted {
                old(self)@.remove(port)
            } else {
                old(self)@
            },
    {
        let matches = match self.entries.get(&port) {
            Some(expected) => same_text(expected.as_str(), token),
            None => false,
        };
        if matches {
            let _ = self.entries.remove(&port);
            assert(self@ =~= old(self)@.remove(port));
        }
        matches
    }

    /// The token that is outstanding for `port`, if there is one.
    pub fn expected(&self, port: u16) -> (token: Option<&String>)
        ensures
            match token {
                Some(t) => self@.contains_key(port) && self@[port] == t@,
                None => !self@.contains_key(port),
            },
    {
        self.entries.get(&port)
    }

    /// Whether a token is outstanding for `port`.
    pub fn contains(&self, port: u16) -> (present: bool)
        ensures
            present == self@.contains_key(port),
    {
        self.entries.contains_key(&port)
    }

    /// The number of outstanding tokens.
    pub fn len(&self) -> (count: usize)
        ensures
            self@.dom().finite(),
            count == self@.len(),
    {
        assert(self@.dom() =~= self.entries@.dom());
        self.entries.len()
    }
}

/// The registry as it is before any session has started: empty.
pub fn active_nonces() -> (registry: NonceRegistry)
    ensures
        registry@ == Map::<u16, Seq<char>>::empty(),
{
    NonceRegistry::new()
}

} // verus!
