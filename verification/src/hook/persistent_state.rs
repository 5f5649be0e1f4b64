//! The persistent state hook.
//!
//! A thin layer over [`crate::hook::state::StateHook`] for cells the host
//! keeps across process restarts.  The backend records the call-site
//! index; the host derives its durable key from the identity and that
//! index, seeds the cell from the stored value on first use, and mirrors
//! the current snapshot back after every write.

use vstd::prelude::*;

verus! {

use crate::hook::Hook;
use crate::hook::state::{StateBackend, StateHook, spec_begin_pass, spec_first_init, spec_reinit};

/// The persistent cell: the double buffer plus the call-site index the
/// host keys its durable copy by.
pub struct PersistentStateBackend<T> {
    pub index: usize,
    pub inner: StateBackend<T>,
}

/// A state hook whose cell survives process restarts through the host's
/// durable store.
pub struct PersistentStateHook<T> {
    pub inner: StateHook<T>,
}

impl<T> PersistentStateHook<T> {
    pub fn new(default: T) -> (r: Self)
        ensures
            r.inner.inner == crate::hook::state::StateHookInner::Default(default),
    {
        PersistentStateHook { inner: StateHook::new(default) }
    }
}

impl<T> Hook for PersistentStateHook<T> {
    type Backend = PersistentStateBackend<T>;

    type Output = ();

    open spec fn inits(&self) -> bool {
        self.inner.inner is Default
    }

    open spec fn usable(&self) -> bool {
        true
    }

    open spec fn init_rel(
        &self,
        prior: Option<PersistentStateBackend<T>>,
        b: PersistentStateBackend<T>,
        pass: u64,
    ) -> bool {
        match self.inner.inner {
            crate::hook::state::StateHookInner::Default(d) => match prior {
                Some(p) => b.index == p.index && b.inner@ == spec_reinit(p.inner@, d),
                None => b.inner@ == spec_first_init(d),
            },
            crate::hook::state::StateHookInner::Taken => false,
        }
    }

    open spec fn use_rel(
        &self,
        b0: PersistentStateBackend<T>,
        b1: PersistentStateBackend<T>,
        out: (),
        pass: u64,
    ) -> bool {
        b1.index == b0.index && b1.inner@ == spec_begin_pass(b0.inner@)
    }

    fn init(&mut self, index: usize, deps: &crate::deps::DepsToken, prior: Option<PersistentStateBackend<T>>, pass: u64) -> (b:
        PersistentStateBackend<T>)
        ensures
            b.index == index || (prior matches Some(p) && b.index == p.index),
    {
        let d = self.inner.inner.take();
        match prior {
            Some(mut p) => {
                p.inner.reinit(d);
                p
            },
            None => PersistentStateBackend { index, inner: StateBackend::new(d, None) },
        }
    }

    fn hook(self, backend: &mut PersistentStateBackend<T>, pass: u64) {
        backend.inner.begin_pass();
    }
}

} // verus!
