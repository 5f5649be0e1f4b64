//! The hook contract and the standard hooks.
//!
//! A hook is a stateful operation invoked from render code.  Its persistent
//! state (the backend) lives in the [`crate::dispatcher::Dispatcher`] under
//! the invoking call site's identity and index; the hook value itself only
//! carries what one invocation needs.  `init` runs on the first invocation
//! and again whenever the dependency token changes; `hook` runs on every
//! invocation and produces the caller-visible output.

pub mod cleanup;
pub mod effect;
pub mod ephemeral_kv;
pub mod kv;
pub mod memo;
pub mod persisted_state;
pub mod persistent_state;
pub mod state;
pub mod two_frame_kv;

use vstd::prelude::*;

verus! {

/// A stateful operation dispatched by identity and call-site index.
///
/// The spec functions tie the generic dispatch protocol to each hook's own
/// semantics: `init_rel` relates the prior backend (if any) to the backend
/// `init` builds, and `use_rel` relates the backend before and after the
/// use step to the output.  `inits` guards one-shot state inside the hook
/// value (a default producer that may be taken only once); `usable` carries
/// whatever the use step needs (such as a stored callback's precondition).
pub trait Hook: Sized {
    type Backend;

    type Output;

    /// Whether `init` may still run (one-shot producers not yet taken).
    spec fn inits(&self) -> bool;

    /// Whatever the use step requires of the hook value.
    spec fn usable(&self) -> bool;

    /// How the backend `init` builds relates to the prior backend.
    spec fn init_rel(&self, prior: Option<Self::Backend>, b: Self::Backend, pass: u64) -> bool;

    /// How the use step transforms the backend and what it outputs.
    spec fn use_rel(&self, b0: Self::Backend, b1: Self::Backend, out: Self::Output, pass: u64) -> bool;

    /// Builds the backend, on first invocation (`prior` is `None`) or on a
    /// dependency change (`prior` holds the backend the previous epoch
    /// left).  `deps` is the token of the epoch being entered.  Must not
    /// invoke other hooks.
    fn init(&mut self, index: usize, deps: &crate::deps::DepsToken, prior: Option<Self::Backend>, pass: u64) -> (b: Self::Backend)
        requires
            old(self).inits(),
        ensures
            old(self).init_rel(prior, b, pass),
            final(self).usable() == old(self).usable(),
            forall|b0: Self::Backend, b1: Self::Backend, out: Self::Output, p: u64|
                #[trigger] final(self).use_rel(b0, b1, out, p) == old(self).use_rel(b0, b1, out, p),
    ;

    /// The use step: runs on every invocation against the stored backend
    /// and produces the caller-visible output.
    fn hook(self, backend: &mut Self::Backend, pass: u64) -> (out: Self::Output)
        requires
            self.usable(),
        ensures
            self.use_rel(*old(backend), *final(backend), out, pass),
    ;
}

/// Invocation-order corruption: the backend stored at a call site does not
/// have the type tag the current invocation expects.  This means the hook
/// order changed between passes for one identity; the host should treat it
/// as fatal and surface the offending identity and index.
#[derive(Clone, Copy, Debug, PartialEq, Eq, Structural)]
pub struct HookError {
    /// The identity whose slot was mismatched.
    pub id: u64,
    /// The call-site index within that identity.
    pub index: usize,
    /// The type tag the invocation expected.
    pub expected_tag: u64,
    /// The type tag the stored backend carries.
    pub found_tag: u64,
}

} // verus!
