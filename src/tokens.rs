//! Continuation tokens: the reply credential of an interaction, kept for a
//! while so that later events can still address that interaction's reply.
//! Whoever sets a token schedules its removal after `TOKEN_TTL_SECS`.
use crate::error::Error;
use std::collections::HashMap;
use vstd::prelude::*;

verus! {

broadcast use vstd::std_specs::hash::group_hash_axioms;

/// Seconds a continuation token is kept.
pub const TOKEN_TTL_SECS: u64 = 900;

/// The credentials of the interactions that can still be continued, by
/// interaction identifier.
pub struct ContinuationCache {
    tokens: HashMap<u64, String>,
}

impl View for ContinuationCache {
    type V = Map<u64, String>;

    closed spec fn view(&self) -> Map<u64, String> {
        self.tokens@
    }
}

impl ContinuationCache {
    /// A cache holding no token.
    pub fn new() -> (c: Self)
        ensures
            c@ == Map::<u64, String>::empty(),
    {
        ContinuationCache { tokens: HashMap::new() }
    }

    /// Keeps `credential` for the interaction `id`, replacing any earlier one.
    pub fn set(&mut self, id: u64, credential: String)
        ensures
            final(self)@ == old(self)@.insert(id, credential),
    {
        self.tokens.insert(id, credential);
    }

    /// The credential kept for `id`; once it has been removed, or if it was
    /// never kept, the interaction has expired.
    pub fn get(&self, id: u64) -> (r: Result<String, Error>)
        ensures
            self@.contains_key(id) ==> r == Ok::<String, Error>(self@[id]),
            !self@.contains_key(id) ==> r == Err::<String, Error>(Error::InteractionExpired),
    {
        match self.tokens.get(&id) {
            Some(c) => Ok(c.clone()),
            None => Err(Error::InteractionExpired),
        }
    }

    /// Drops the credential of `id`; an absent one is left alone.
    pub fn expire(&mut self, id: u64)
        ensures
            final(self)@ == old(self)@.remove(id),
    {
        self.tokens.remove(&id);
    }
}

} // verus!
