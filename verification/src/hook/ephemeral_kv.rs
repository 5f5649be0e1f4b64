//! The ephemeral keyed store hook.
//!
//! The backend is an [`EphemeralMap`]: its entries are cleared wholesale on
//! every pass change, which the use step performs before the caller gets to
//! read or write.  Entries therefore only carry values between call sites
//! within one pass.

use vstd::prelude::*;

verus! {

use core::hash::Hash;
use core::marker::PhantomData;
use crate::ephemeral_map::{EphemeralMap, spec_eph_advance, spec_eph_initial};
use crate::hook::Hook;

/// A keyed store cleared on every pass change.
pub struct EphemeralKvHook<K, V> {
    _marker: PhantomData<(K, V)>,
}

impl<K, V> EphemeralKvHook<K, V> {
    pub fn new() -> Self {
        EphemeralKvHook { _marker: PhantomData }
    }
}

impl<K: Copy + Eq + Hash, V> Hook for EphemeralKvHook<K, V> {
    type Backend = EphemeralMap<K, V>;

    type Output = ();

    open spec fn inits(&self) -> bool {
        true
    }

    open spec fn usable(&self) -> bool {
        true
    }

    open spec fn init_rel(
        &self,
        prior: Option<EphemeralMap<K, V>>,
        b: EphemeralMap<K, V>,
        pass: u64,
    ) -> bool {
        match prior {
            Some(m) => b == m,
            None => b@ == spec_eph_initial::<K, V>(),
        }
    }

    open spec fn use_rel(
        &self,
        b0: EphemeralMap<K, V>,
        b1: EphemeralMap<K, V>,
        out: (),
        pass: u64,
    ) -> bool {
        b1@ == spec_eph_advance(b0@, pass)
    }

    fn init(&mut self, index: usize, deps: &crate::deps::DepsToken, prior: Option<EphemeralMap<K, V>>, pass: u64) -> (b:
        EphemeralMap<K, V>) {
        match prior {
            Some(m) => m,
            None => EphemeralMap::new(),
        }
    }

    fn hook(self, backend: &mut EphemeralMap<K, V>, pass: u64) {
        backend.may_advance_frame(pass);
    }
}

} // verus!
