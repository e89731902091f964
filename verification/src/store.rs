//! The key-value store: a shared in-memory mapping from string key to
//! string value.

use vstd::prelude::*;

use crate::assoc::AssocMap;

verus! {

/// The store's failure: the underlying backend is unavailable or corrupted.
/// The in-memory backend never is, so no operation of this crate produces
/// it; the variant exists so callers written against a fallible backend
/// keep their shape.
#[derive(Clone, Copy, Debug, PartialEq, Eq, Structural)]
pub enum StoreError {
    Unavailable,
}

/// An in-memory mapping from string key to string value. Keys are unique,
/// insertion order is irrelevant, values are opaque text blobs; there is no
/// expiry, no versioning and no per-caller partitioning.
pub struct KvStore {
    entries: AssocMap<String>,
}

impl View for KvStore {
    type V = Map<Seq<char>, Seq<char>>;

    closed spec fn view(&self) -> Map<Seq<char>, Seq<char>> {
        self.entries@
    }
}

impl KvStore {
    /// An empty store.
    pub fn new() -> (s: Self)
        ensures
            s@ == Map::<Seq<char>, Seq<char>>::empty(),
    {
        KvStore { entries: AssocMap::new() }
    }

    /// Inserts or overwrites the entry for `key`; every later `get` of the
    /// key observes the new value. The in-memory backend cannot fail, so
    /// the result is always `Ok`.
    pub fn set(&mut self, key: String, value: String) -> (r: Result<(), StoreError>)
        ensures
            r is Ok,
            final(self)@ == old(self)@.insert(key@, value@),
    {
        self.entries.insert(key, value);
        Ok(())
    }

    /// The current value for `key`, or an empty result if the key is
    /// absent — absence is not an error. Never mutates the store, and the
    /// in-memory backend cannot fail, so the result is always `Ok`.
    pub fn get(&self, key: &str) -> (r: Result<Option<String>, StoreError>)
        ensures
            r is Ok,
            r matches Ok(v) ==> ((v is Some) <==> self@.contains_key(key@)),
            r matches Ok(Some(value)) ==> value@ == self@[key@],
    {
        match self.entries.get(key) {
            Some(value) => Ok(Some(value.clone())),
            None => Ok(None),
        }
    }

    /// The number of keys held.
    pub fn len(&self) -> (n: usize)
        ensures
            n == self@.len(),
    {
        self.entries.len()
    }
}

} // verus!
