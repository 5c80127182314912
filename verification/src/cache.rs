use vstd::prelude::*;
use std::collections::HashMap;

verus! {

broadcast use vstd::std_specs::hash::group_hash_axioms;

/// The shared cache store: a mapping from a record's identifier to the
/// record's canonical serialization. It is created once, empty, and only
/// ever grows; no entry is ever removed or expired.
///
/// Callers that share one store across threads wrap it in their own
/// exclusion guard; each operation here is one complete critical section.
pub struct CacheStore {
    map: HashMap<i32, String>,
}

impl View for CacheStore {
    type V = Map<i32, Seq<char>>;

    closed spec fn view(&self) -> Map<i32, Seq<char>> {
        Map::new(|k: i32| self.map@.contains_key(k), |k: i32| self.map@[k]@)
    }
}

impl CacheStore {
    /// Creates the store, empty.
    pub fn new() -> (c: CacheStore)
        ensures
            c@ == Map::<i32, Seq<char>>::empty(),
    {
        let c = CacheStore { map: HashMap::new() };
        proof {
            assert(c@ =~= Map::<i32, Seq<char>>::empty());
        }
        c
    }

    /// Reads the entry for one identifier, handing back a copy of the
    /// stored value if the identifier is present.
    pub fn lookup(&self, id: i32) -> (r: Option<String>)
        ensures
            match r {
                Some(v) => self@.contains_key(id) && v@ == self@[id],
                None => !self@.contains_key(id),
            },
    {
        match self.map.get(&id) {
            Some(v) => Some(v.clone()),
            None => None,
        }
    }

    /// Writes one entry: a single atomic map mutation, so a concurrent
    /// reader sees either no entry or the whole value, never a torn one.
    pub fn insert(&mut self, id: i32, value: String)
        ensures
            final(self)@ == old(self)@.insert(id, value@),
    {
        self.map.insert(id, value);
        proof {
            assert(self@ =~= old(self)@.insert(id, value@));
        }
    }

    /// Whether an entry for the identifier is present.
    pub fn contains(&self, id: i32) -> (b: bool)
        ensures
            b == self@.contains_key(id),
    {
        self.map.contains_key(&id)
    }

    /// How many entries the store holds.
    pub fn len(&self) -> (n: usize)
        ensures
            n == self@.len(),
    {
        proof {
            assert(self@.dom() =~= self.map@.dom());
        }
        self.map.len()
    }
}

} // verus!
