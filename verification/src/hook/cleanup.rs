//! The cleanup hook: a one-shot callback bound to the invoking identity.
//!
//! On initialization — first invocation, or a dependency change — the
//! callback is registered under the identity in the dispatcher's retention
//! map; it runs exactly once, at the pass boundary where the identity has
//! gone unreferenced for a full pass.  Because registration needs the
//! dispatcher itself, this hook is driven by
//! [`crate::dispatcher::Dispatcher::use_cleanup`] rather than through the
//! generic [`crate::hook::Hook`] protocol.

use vstd::prelude::*;

verus! {

/// Carries the cleanup callback to register; `None` once it was handed
/// over.
pub struct CleanupHook<C> {
    pub f: Option<C>,
}

impl<C> CleanupHook<C> {
    pub fn new(f: C) -> (r: Self)
        ensures
            r.f == Some(f),
    {
        CleanupHook { f: Some(f) }
    }
}

} // verus!
