//! Deferred cleanup callbacks.

use vstd::prelude::*;

verus! {

/// A one-shot cleanup action, run when the key it was registered under is
/// dropped from retention.
///
/// Implementors should make `cleanup` idempotent (the usual pattern is to
/// move the real payload out of an `Option` on the first call); the engine
/// itself calls `cleanup` at most once per registered value, because it
/// drops the value right after running it.
pub trait Cleanup: Send + Sync + 'static {
    fn cleanup(&mut self);
}

/// A cleanup action that does nothing.  Useful as the cleanup parameter of
/// maps whose entries need no teardown.
pub struct NoCleanup;

impl Cleanup for NoCleanup {
    fn cleanup(&mut self) {
    }
}

} // verus!
