//! Keyed value stores as hooks.
//!
//! The backend is a plain map retained under the invoking call site like
//! any other hook state: alive while the site keeps being invoked, dropped
//! after two untouched pass boundaries.  The dependency token for these
//! hooks is normally the unit token, so the map survives across passes
//! unchanged.  The persisted variant follows the same retention
//! discipline; mirroring its contents into a store that survives process
//! restarts is the host's business.

use vstd::prelude::*;

verus! {

use core::hash::Hash;
use core::marker::PhantomData;
use std::collections::HashMap;
use crate::hook::Hook;

broadcast use vstd::std_specs::hash::group_hash_axioms;

/// A keyed value store retained across passes.
pub struct KvHook<K, V> {
    _marker: PhantomData<(K, V)>,
}

impl<K, V> KvHook<K, V> {
    pub fn new() -> Self {
        KvHook { _marker: PhantomData }
    }
}

impl<K: Copy + Eq + Hash, V> Hook for KvHook<K, V> {
    type Backend = HashMap<K, V>;

    type Output = ();

    open spec fn inits(&self) -> bool {
        true
    }

    open spec fn usable(&self) -> bool {
        true
    }

    open spec fn init_rel(&self, prior: Option<HashMap<K, V>>, b: HashMap<K, V>, pass: u64) -> bool {
        match prior {
            Some(m) => b == m,
            None => b@ == Map::<K, V>::empty(),
        }
    }

    open spec fn use_rel(&self, b0: HashMap<K, V>, b1: HashMap<K, V>, out: (), pass: u64) -> bool {
        b1 == b0
    }

    fn init(&mut self, index: usize, deps: &crate::deps::DepsToken, prior: Option<HashMap<K, V>>, pass: u64) -> (b: HashMap<K, V>) {
        match prior {
            Some(m) => m,
            None => HashMap::new(),
        }
    }

    fn hook(self, backend: &mut HashMap<K, V>, pass: u64) {
    }
}

/// A keyed value store whose contents the host also mirrors into durable
/// storage; its in-memory retention is exactly [`KvHook`]'s.
pub struct PersistedKvHook<K, V> {
    _marker: PhantomData<(K, V)>,
}

impl<K, V> PersistedKvHook<K, V> {
    pub fn new() -> Self {
        PersistedKvHook { _marker: PhantomData }
    }
}

impl<K: Copy + Eq + Hash, V> Hook for PersistedKvHook<K, V> {
    type Backend = HashMap<K, V>;

    type Output = ();

    open spec fn inits(&self) -> bool {
        true
    }

    open spec fn usable(&self) -> bool {
        true
    }

    open spec fn init_rel(&self, prior: Option<HashMap<K, V>>, b: HashMap<K, V>, pass: u64) -> bool {
        match prior {
            Some(m) => b == m,
            None => b@ == Map::<K, V>::empty(),
        }
    }

    open spec fn use_rel(&self, b0: HashMap<K, V>, b1: HashMap<K, V>, out: (), pass: u64) -> bool {
        b1 == b0
    }

    fn init(&mut self, index: usize, deps: &crate::deps::DepsToken, prior: Option<HashMap<K, V>>, pass: u64) -> (b: HashMap<K, V>) {
        match prior {
            Some(m) => m,
            None => HashMap::new(),
        }
    }

    fn hook(self, backend: &mut HashMap<K, V>, pass: u64) {
    }
}

} // verus!
