//! The persisted state hook.
//!
//! Behaves like [`crate::hook::state::StateHook`], with the call-site index
//! recorded in the backend: the host uses `(identity, index)` to address
//! the durable copy of the cell in its own store, and mirrors the cell
//! there after every write.  In-memory retention is the dispatcher's usual
//! two-pass discipline, so a site that stops being invoked frees its
//! persisted value — in best effort, at the next advance — and any cleanup
//! registered under its identity runs then.

use vstd::prelude::*;

verus! {

use crate::hook::Hook;
use crate::hook::state::{
    StateBackend,
    StateHookInner,
    spec_begin_pass,
    spec_first_init,
    spec_reinit,
};

/// The persisted cell: the double buffer plus the call-site index the host
/// keys its durable copy by.
pub struct PersistedStateBackend<T> {
    pub index: usize,
    pub inner: StateBackend<T>,
}

/// A state hook whose cell the host also mirrors into durable storage.
pub struct PersistedStateHook<T> {
    pub inner: StateHookInner<T>,
}

impl<T> PersistedStateHook<T> {
    pub fn new(default: T) -> (r: Self)
        ensures
            r.inner == StateHookInner::Default(default),
    {
        PersistedStateHook { inner: StateHookInner::Default(default) }
    }
}

impl<T> Hook for PersistedStateHook<T> {
    type Backend = PersistedStateBackend<T>;

    type Output = ();

    open spec fn inits(&self) -> bool {
        self.inner is Default
    }

    open spec fn usable(&self) -> bool {
        true
    }

    open spec fn init_rel(
        &self,
        prior: Option<PersistedStateBackend<T>>,
        b: PersistedStateBackend<T>,
        pass: u64,
    ) -> bool {
        match self.inner {
            StateHookInner::Default(d) => match prior {
                Some(p) => b.index == p.index && b.inner@ == spec_reinit(p.inner@, d),
                None => b.inner@ == spec_first_init(d),
            },
            StateHookInner::Taken => false,
        }
    }

    open spec fn use_rel(
        &self,
        b0: PersistedStateBackend<T>,
        b1: PersistedStateBackend<T>,
        out: (),
        pass: u64,
    ) -> bool {
        b1.index == b0.index && b1.inner@ == spec_begin_pass(b0.inner@)
    }

    fn init(&mut self, index: usize, deps: &crate::deps::DepsToken, prior: Option<PersistedStateBackend<T>>, pass: u64) -> (b:
        PersistedStateBackend<T>)
        ensures
            b.index == index || (prior matches Some(p) && b.index == p.index),
    {
        let d = self.inner.take();
        match prior {
            Some(mut p) => {
                p.inner.reinit(d);
                p
            },
            None => PersistedStateBackend { index, inner: StateBackend::new(d, None) },
        }
    }

    fn hook(self, backend: &mut PersistedStateBackend<T>, pass: u64) {
        backend.inner.begin_pass();
    }
}

} // verus!
