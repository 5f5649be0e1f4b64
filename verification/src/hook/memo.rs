//! The memo hook: a computation cached per call site.
//!
//! The callback runs only when the hook initializes — on the first
//! invocation, or when the dependency token changes.  Every other
//! invocation returns the stored value unchanged.

use vstd::prelude::*;

verus! {

use crate::hook::Hook;

/// Memoizes `callback`'s result in the call site's backend.
pub struct MemoHook<F> {
    pub callback: F,
}

impl<T: Copy, F: Fn() -> T> Hook for MemoHook<F> {
    type Backend = T;

    type Output = T;

    open spec fn inits(&self) -> bool {
        call_requires(self.callback, ())
    }

    open spec fn usable(&self) -> bool {
        true
    }

    open spec fn init_rel(&self, prior: Option<T>, b: T, pass: u64) -> bool {
        call_ensures(self.callback, (), b)
    }

    open spec fn use_rel(&self, b0: T, b1: T, out: T, pass: u64) -> bool {
        b1 == b0 && out == b0
    }

    fn init(&mut self, index: usize, deps: &crate::deps::DepsToken, prior: Option<T>, pass: u64) -> (b: T) {
        (self.callback)()
    }

    fn hook(self, backend: &mut T, pass: u64) -> (out: T) {
        *backend
    }
}

} // verus!
