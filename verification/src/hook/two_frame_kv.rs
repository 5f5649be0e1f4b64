//! The two-generation keyed store hooks.
//!
//! The backend is a [`TwoFrameMap`] keyed by caller-supplied keys instead
//! of call-site indices: each entry survives being unreferenced for one
//! pass and is dropped — firing its registered cleanups — after a second.
//! The use step advances the map to the current pass before the caller
//! reads or writes.  The persisted variant follows the same retention
//! discipline; mirroring it into storage that survives restarts is the
//! host's business.

use vstd::prelude::*;

verus! {

use core::hash::Hash;
use core::marker::PhantomData;
use crate::cleanup::Cleanup;
use crate::hook::Hook;
use crate::two_frame_map::{TwoFrameMap, spec_advance, spec_initial};
use vstd::std_specs::hash::obeys_key_model;

/// A keyed store with two-generation retention per key.
pub struct TwoFrameKvHook<K, V, C> {
    _marker: PhantomData<(K, V, C)>,
}

impl<K, V, C> TwoFrameKvHook<K, V, C> {
    pub fn new() -> Self {
        TwoFrameKvHook { _marker: PhantomData }
    }
}

impl<K: Copy + Eq + Hash, V, C: Cleanup> Hook for TwoFrameKvHook<K, V, C> {
    type Backend = TwoFrameMap<K, V, C>;

    type Output = ();

    open spec fn inits(&self) -> bool {
        true
    }

    open spec fn usable(&self) -> bool {
        obeys_key_model::<K>()
    }

    open spec fn init_rel(
        &self,
        prior: Option<TwoFrameMap<K, V, C>>,
        b: TwoFrameMap<K, V, C>,
        pass: u64,
    ) -> bool {
        match prior {
            Some(m) => b == m,
            None => b@ == spec_initial::<K, V, C>(),
        }
    }

    open spec fn use_rel(
        &self,
        b0: TwoFrameMap<K, V, C>,
        b1: TwoFrameMap<K, V, C>,
        out: (),
        pass: u64,
    ) -> bool {
        b1@ == spec_advance(b0@, pass)
    }

    fn init(&mut self, index: usize, deps: &crate::deps::DepsToken, prior: Option<TwoFrameMap<K, V, C>>, pass: u64) -> (b:
        TwoFrameMap<K, V, C>) {
        match prior {
            Some(m) => m,
            None => TwoFrameMap::new(),
        }
    }

    fn hook(self, backend: &mut TwoFrameMap<K, V, C>, pass: u64) {
        backend.may_advance_frame(pass);
    }
}

/// The durable twin of [`TwoFrameKvHook`]: identical in-memory retention;
/// the host mirrors the map into its durable store.
pub struct PersistedTwoFrameKvHook<K, V, C> {
    _marker: PhantomData<(K, V, C)>,
}

impl<K, V, C> PersistedTwoFrameKvHook<K, V, C> {
    pub fn new() -> Self {
        PersistedTwoFrameKvHook { _marker: PhantomData }
    }
}

impl<K: Copy + Eq + Hash, V, C: Cleanup> Hook for PersistedTwoFrameKvHook<K, V, C> {
    type Backend = TwoFrameMap<K, V, C>;

    type Output = ();

    open spec fn inits(&self) -> bool {
        true
    }

    open spec fn usable(&self) -> bool {
        obeys_key_model::<K>()
    }

    open spec fn init_rel(
        &self,
        prior: Option<TwoFrameMap<K, V, C>>,
        b: TwoFrameMap<K, V, C>,
        pass: u64,
    ) -> bool {
        match prior {
            Some(m) => b == m,
            None => b@ == spec_initial::<K, V, C>(),
        }
    }

    open spec fn use_rel(
        &self,
        b0: TwoFrameMap<K, V, C>,
        b1: TwoFrameMap<K, V, C>,
        out: (),
        pass: u64,
    ) -> bool {
        b1@ == spec_advance(b0@, pass)
    }

    fn init(&mut self, index: usize, deps: &crate::deps::DepsToken, prior: Option<TwoFrameMap<K, V, C>>, pass: u64) -> (b:
        TwoFrameMap<K, V, C>) {
        match prior {
            Some(m) => m,
            None => TwoFrameMap::new(),
        }
    }

    fn hook(self, backend: &mut TwoFrameMap<K, V, C>, pass: u64) {
        backend.may_advance_frame(pass);
    }
}

} // verus!
