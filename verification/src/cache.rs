//! The challenge cache: a single optional slot holding the DNS provider's
//! record identifier for the challenge currently in flight. Empty at startup,
//! filled by a successful `Present`, emptied by `CleanUp`. The process wraps
//! one instance in a mutual-exclusion lock; the type itself is plain state.

use vstd::prelude::*;

verus! {

/// One optional slot for the provider-assigned record identifier.
pub struct ChallengeCache {
    slot: Option<String>,
}

impl View for ChallengeCache {
    type V = Option<Seq<char>>;

    closed spec fn view(&self) -> Option<Seq<char>> {
        match self.slot {
            Some(id) => Some(id@),
            None => None,
        }
    }
}

impl ChallengeCache {
    /// A cache with nothing stored: the state at process startup.
    pub fn new() -> (c: Self)
        ensures
            c@ is None,
    {
        ChallengeCache { slot: None }
    }

    /// Read the cached record identifier without clearing it.
    pub fn get(&self) -> (r: Option<&String>)
        ensures
            match r {
                Some(id) => self@ == Some(id@),
                None => self@ is None,
            },
    {
        self.slot.as_ref()
    }

    /// Store a record identifier, replacing whatever was cached.
    pub fn set(&mut self, id: String)
        ensures
            final(self)@ == Some(id@),
    {
        self.slot = Some(id);
    }

    /// Read and clear in one step.
    pub fn take(&mut self) -> (r: Option<String>)
        ensures
            final(self)@ is None,
            match r {
                Some(id) => old(self)@ == Some(id@),
                None => old(self)@ is None,
            },
    {
        self.slot.take()
    }
}

} // verus!
