//! The effect hook: a one-shot side effect per dependency epoch.
//!
//! The backend is a single flag meaning "callback still pending".  It is
//! set when the hook initializes and cleared — right after the callback
//! runs — on the first use step of that epoch, so the callback runs at
//! most once per (identity, index, dependency epoch).

use vstd::prelude::*;

verus! {

use crate::hook::Hook;

/// Runs `callback` once per dependency epoch of its call site.
pub struct EffectHook<F> {
    pub callback: F,
}

impl<F: FnOnce()> Hook for EffectHook<F> {
    type Backend = bool;

    type Output = ();

    open spec fn inits(&self) -> bool {
        true
    }

    open spec fn usable(&self) -> bool {
        call_requires(self.callback, ())
    }

    open spec fn init_rel(&self, prior: Option<bool>, b: bool, pass: u64) -> bool {
        b == true
    }

    open spec fn use_rel(&self, b0: bool, b1: bool, out: (), pass: u64) -> bool {
        &&& b1 == false
        &&& (b0 ==> call_ensures(self.callback, (), out))
    }

    fn init(&mut self, index: usize, deps: &crate::deps::DepsToken, prior: Option<bool>, pass: u64) -> (b: bool) {
        true
    }

    fn hook(self, backend: &mut bool, pass: u64) -> (out: ()) {
        if *backend {
            let out = (self.callback)();
            *backend = false;
            out
        } else {
        }
    }
}

/// An effect whose callback also yields a cleanup to run when the call
/// site's identity is dropped; the host wires the returned cleanup to
/// [`crate::dispatcher::Dispatcher::register_cleanup`].
pub struct EffectHookWithCleanup<F> {
    pub callback: F,
}

} // verus!
