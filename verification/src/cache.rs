//! The shader cache: retained vertex-shader bytecode, keyed by its content
//! hash.
//!
//! Building an input layout at pipeline-creation time needs the original
//! vertex bytecode beside the vertex-attribute signature; the compiled
//! shader object alone does not retain enough for the device's input-layout
//! validation.  So shader creation deposits vertex bytecode here, and
//! pipeline creation looks it up again by the hash stored on the program.

use std::collections::HashMap;
use vstd::prelude::*;

verus! {

broadcast use vstd::std_specs::hash::group_hash_axioms;

/// Retained vertex-shader bytecode, keyed by content hash.
pub struct ShaderCache {
    map: HashMap<u64, Vec<u8>>,
}

impl View for ShaderCache {
    type V = Map<u64, Seq<u8>>;

    /// The cache as a map from hash to the retained byte sequence.
    closed spec fn view(&self) -> Map<u64, Seq<u8>> {
        self.map@.map_values(|v: Vec<u8>| v@)
    }
}

impl ShaderCache {
    /// An empty cache.
    pub fn new() -> (c: ShaderCache)
        ensures
            c@ == Map::<u64, Seq<u8>>::empty(),
    {
        let c = ShaderCache { map: HashMap::new() };
        proof {
            assert(c@ =~= Map::<u64, Seq<u8>>::empty());
        }
        c
    }

    /// Retain bytecode under its hash; a later deposit under the same hash
    /// replaces the earlier one.
    pub fn insert(&mut self, hash: u64, code: Vec<u8>)
        ensures
            final(self)@ == old(self)@.insert(hash, code@),
    {
        let ghost prior = self.map@;
        self.map.insert(hash, code);
        proof {
            assert(self@ =~= old(self)@.insert(hash, code@));
        }
    }

    /// Whether bytecode is retained under a hash.
    pub fn contains(&self, hash: u64) -> (r: bool)
        ensures
            r == self@.contains_key(hash),
    {
        let r = self.map.contains_key(&hash);
        proof {
            assert(self.map@.contains_key(hash) == self@.contains_key(hash));
        }
        r
    }

    /// The bytecode retained under a hash, if any.
    pub fn get(&self, hash: u64) -> (r: Option<&Vec<u8>>)
        ensures
            match r {
                Some(code) => self@.contains_key(hash) && code@ == self@[hash],
                None => !self@.contains_key(hash),
            },
    {
        let r = self.map.get(&hash);
        proof {
            assert(self.map@.contains_key(hash) == self@.contains_key(hash));
            if self.map@.contains_key(hash) {
                assert(self@[hash] == self.map@[hash]@);
            }
        }
        r
    }

    /// Evict the bytecode retained under a hash; reports whether an entry
    /// was there.
    pub fn evict(&mut self, hash: u64) -> (r: bool)
        ensures
            final(self)@ == old(self)@.remove(hash),
            r == old(self)@.contains_key(hash),
    {
        let r = self.map.remove(&hash);
        proof {
            assert(self@ =~= old(self)@.remove(hash));
            assert(old(self).map@.contains_key(hash) == old(self)@.contains_key(hash));
        }
        r.is_some()
    }
}

} // verus!
