//! The slot store driving the hook protocol.
//!
//! The dispatcher owns every hook backend, keyed by widget identity and
//! call-site index, inside a [`TwoFrameMap`] — so a call site that stops
//! being invoked loses its backend after two pass boundaries, and cleanups
//! registered under its identity run at that point.
//!
//! `get_backend` removes the stored slot rather than peeking at it: the
//! invocation either pushes it back unchanged or replaces it before the
//! pass ends, which is what lets a dependency-triggered re-initialization
//! swap in a fresh backend without leaking the old one.  Each slot carries
//! a caller-chosen type tag; a tag mismatch on retrieval means the hook
//! order changed between passes (invocation-order corruption) and is
//! reported as a [`HookError`], never served.

use vstd::prelude::*;

verus! {

use std::collections::HashMap;
use crate::deps::DepsToken;
use crate::hook::{Hook, HookError};
use crate::two_frame_map::{TwoFrameMap, TwoFrameMapView, spec_advance, spec_lookup};

broadcast use vstd::std_specs::hash::group_hash_axioms;

/// One stored backend: the hook's private state, the type tag it was stored
/// under, and the dependency token of the epoch that built it.
pub struct Slot<B> {
    pub type_tag: u64,
    pub backend: B,
    pub deps: DepsToken,
}

/// The dispatcher's abstract state: a two-generation view of the per-identity
/// slot maps, plus the pending cleanups.
pub type DispatcherView<B, C> = TwoFrameMapView<u64, HashMap<usize, Slot<B>>, C>;

/// The slot stored for `(id, index)`, in whichever generation holds it.
pub open spec fn spec_slot_of<B, C>(
    d: DispatcherView<B, C>,
    id: u64,
    index: usize,
) -> Option<Slot<B>> {
    match spec_lookup(d, id) {
        Some(h) => if h@.contains_key(index) {
            Some(h@[index])
        } else {
            None
        },
        None => None,
    }
}

/// Relates the dispatcher state before and after an operation that renews
/// identity `id` with slot map contents `inner` and touches nothing else:
/// the identity's slot map sits in the current generation (its retention
/// renewed), and every other identity keeps its place.
pub open spec fn spec_renewed<B, C>(
    d: DispatcherView<B, C>,
    d2: DispatcherView<B, C>,
    id: u64,
    inner: Map<usize, Slot<B>>,
) -> bool {
    &&& d2.frame == d.frame
    &&& d2.pending == d.pending
    &&& d2.prev == d.prev.remove(id)
    &&& d2.cur.contains_key(id)
    &&& d2.cur[id]@ == inner
    &&& d2.cur == d.cur.insert(id, d2.cur[id])
}

/// What a successful hook invocation guarantees about the slot it leaves
/// behind: the stored backend relates to the prior one by the hook's own
/// `init_rel` (when the site was new or its dependencies changed) and
/// `use_rel` semantics, and the stored token is the one that epoch was
/// built with.
pub open spec fn spec_invocation_ok<B, T: Hook<Backend = B>>(
    hook: T,
    pre: Option<Slot<B>>,
    post: Option<Slot<B>>,
    type_tag: u64,
    deps: DepsToken,
    out: T::Output,
    pass: u64,
) -> bool {
    &&& post matches Some(s2)
    &&& {
        let s2 = post.unwrap();
        &&& s2.type_tag == type_tag
        &&& match pre {
            Some(s) => if s.deps.type_tag == deps.type_tag && s.deps.words@ == deps.words@ {
                &&& s2.deps == s.deps
                &&& hook.use_rel(s.backend, s2.backend, out, pass)
            } else {
                &&& s2.deps == deps
                &&& exists|bi: B|
                    hook.init_rel(Some(s.backend), bi, pass) && #[trigger] hook.use_rel(
                        bi,
                        s2.backend,
                        out,
                        pass,
                    )
            },
            None => {
                &&& s2.deps == deps
                &&& exists|bi: B|
                    hook.init_rel(None, bi, pass) && #[trigger] hook.use_rel(
                        bi,
                        s2.backend,
                        out,
                        pass,
                    )
            },
        }
    }
}

/// An identity renewed during a pass — by any hook invocation, which always
/// leaves the identity's slot map in the current generation — survives the
/// next pass boundary with its slots intact, and every cleanup registered
/// under it stays pending: none of them runs.
pub proof fn lemma_renewed_identity_survives_boundary<B, C>(
    d: DispatcherView<B, C>,
    d2: DispatcherView<B, C>,
    id: u64,
    inner: Map<usize, Slot<B>>,
    frame_nr: u64,
)
    requires
        spec_renewed(d, d2, id, inner),
        frame_nr != d2.frame,
    ensures
        spec_advance(d2, frame_nr).prev.contains_key(id),
        spec_advance(d2, frame_nr).prev[id]@ == inner,
        forall|i: int|
            0 <= i < d2.pending.len() && d2.pending[i].0 == id ==> spec_advance(
                d2,
                frame_nr,
            ).pending.contains(d2.pending[i]),
{
    crate::two_frame_map::lemma_referenced_key_retained(d2, frame_nr, id);
}

/// The dispatcher: owns all hook backends and the auxiliary cleanups, and
/// advances their retention once per pass.
///
/// `B` is the backend type the host stores (a host that mixes hook kinds
/// uses its own erased type); `C` is its cleanup callback type.
pub struct Dispatcher<B, C> {
    backends: TwoFrameMap<u64, HashMap<usize, Slot<B>>, C>,
}

impl<B, C> View for Dispatcher<B, C> {
    type V = DispatcherView<B, C>;

    closed spec fn view(&self) -> DispatcherView<B, C> {
        self.backends@
    }
}

impl<B, C: crate::cleanup::Cleanup> Dispatcher<B, C> {
    pub fn new() -> (r: Self)
        ensures
            r@ == crate::two_frame_map::spec_initial::<u64, HashMap<usize, Slot<B>>, C>(),
    {
        Dispatcher { backends: TwoFrameMap::new() }
    }

    /// Advances backend retention to `frame_nr`; a no-op when the pass
    /// number is unchanged, so concurrent dispatches within one pass cannot
    /// clear the current generation twice.
    pub fn may_advance_frame(&mut self, frame_nr: u64)
        ensures
            final(self)@ == spec_advance(old(self)@, frame_nr),
    {
        self.backends.may_advance_frame(frame_nr);
    }

    /// Registers a cleanup to run once identity `id` falls out of retention.
    pub fn register_cleanup(&mut self, id: u64, cleanup: C)
        ensures
            final(self)@ == (TwoFrameMapView {
                pending: old(self)@.pending.push((id, cleanup)),
                ..old(self)@
            }),
    {
        self.backends.register_cleanup(id, cleanup);
    }

    /// Removes and returns the backend stored for `(id, index)`, renewing
    /// the identity's retention.  Returns `Ok(None)` if no backend is
    /// stored there, and an error — leaving the slot in place — if the
    /// stored backend's type tag is not `type_tag`.
    pub fn get_backend(&mut self, id: u64, index: usize, type_tag: u64) -> (r: Result<
        Option<(B, DepsToken)>,
        HookError,
    >)
        ensures
            ({
                let d = old(self)@;
                let pre = spec_slot_of(d, id, index);
                &&& (r is Err <==> (pre matches Some(s) && s.type_tag != type_tag))
                &&& match r {
                    Err(e) => {
                        &&& e == (HookError {
                            id,
                            index,
                            expected_tag: type_tag,
                            found_tag: pre.unwrap().type_tag,
                        })
                        &&& spec_renewed(d, final(self)@, id, spec_lookup(d, id).unwrap()@)
                    },
                    Ok(fetched) => {
                        &&& fetched == (match pre {
                            Some(s) => Some((s.backend, s.deps)),
                            None => None,
                        })
                        &&& match spec_lookup(d, id) {
                            Some(h) => spec_renewed(d, final(self)@, id, h@.remove(index)),
                            None => final(self)@ == d,
                        }
                    },
                }
            }),
    {
        let inner_opt = self.backends.get_mut(&id);
        match inner_opt {
            None => {
                proof {
                    assert(final(self)@ =~= old(self)@);
                }
                Ok(None)
            },
            Some(mut inner) => {
                let found: Option<u64> = match inner.get(&index) {
                    Some(s) => Some(s.type_tag),
                    None => None,
                };
                match found {
                    None => {
                        self.backends.insert(id, inner);
                        proof {
                            assert(final(self)@.cur =~= old(self)@.cur.insert(
                                id,
                                final(self)@.cur[id],
                            ));
                            assert(spec_lookup(old(self)@, id).unwrap()@ =~= final(self)@.cur[id]@.remove(index));
                        }
                        Ok(None)
                    },
                    Some(tag) => {
                        if tag == type_tag {
                            let slot = match inner.remove(&index) {
                                Some(s) => s,
                                None => vstd::pervasive::unreached(),
                            };
                            self.backends.insert(id, inner);
                            proof {
                                assert(final(self)@.cur =~= old(self)@.cur.insert(
                                    id,
                                    final(self)@.cur[id],
                                ));
                            }
                            Ok(Some((slot.backend, slot.deps)))
                        } else {
                            self.backends.insert(id, inner);
                            proof {
                                assert(final(self)@.cur =~= old(self)@.cur.insert(
                                    id,
                                    final(self)@.cur[id],
                                ));
                            }
                            Err(HookError { id, index, expected_tag: type_tag, found_tag: tag })
                        }
                    },
                }
            },
        }
    }

    /// Stores `backend` under `(id, index)` with its type tag and dependency
    /// token, renewing the identity's retention.
    pub fn push_backend(&mut self, id: u64, index: usize, type_tag: u64, backend: B, deps: DepsToken)
        ensures
            ({
                let d = old(self)@;
                let base = match spec_lookup(d, id) {
                    Some(h) => h@,
                    None => Map::<usize, Slot<B>>::empty(),
                };
                spec_renewed(
                    d,
                    final(self)@,
                    id,
                    base.insert(index, (Slot { type_tag, backend, deps })),
                )
            }),
    {
        let mut inner: HashMap<usize, Slot<B>> = match self.backends.get_mut(&id) {
            Some(h) => h,
            None => HashMap::new(),
        };
        inner.insert(index, Slot { type_tag, backend, deps });
        self.backends.insert(id, inner);
        proof {
            assert(final(self)@.cur =~= old(self)@.cur.insert(id, final(self)@.cur[id]));
        }
    }

    /// One full hook invocation at the call site `(id, index)`: advance
    /// retention to `pass`, fetch the stored slot, compare dependency
    /// tokens, re-initialize the backend if the site is new or its
    /// dependencies changed, run the hook's use step, and store the backend
    /// back for the next pass.
    ///
    /// Fails — serving nothing and leaving the slot in place — exactly when
    /// the stored slot's type tag differs from `type_tag` (invocation-order
    /// corruption); the host should treat that as fatal.  On success the
    /// slot afterwards holds a backend related to the old one by the hook's
    /// own `init_rel`/`use_rel` semantics, and every other call site keeps
    /// its slot.
    #[verifier::rlimit(50)]
    pub fn use_hook_as<T: Hook<Backend = B>>(
        &mut self,
        id: u64,
        index: usize,
        pass: u64,
        type_tag: u64,
        hook: T,
        deps: DepsToken,
    ) -> (r: Result<T::Output, HookError>)
        requires
            hook.inits(),
            hook.usable(),
        ensures
            final(self)@.frame == pass,
            final(self)@.pending == spec_advance(old(self)@, pass).pending,
            (r is Err <==> (spec_slot_of(spec_advance(old(self)@, pass), id, index) matches Some(s)
                && s.type_tag != type_tag)),
            forall|id2: u64, i2: usize|
                !(id2 == id && i2 == index) ==> #[trigger] spec_slot_of(final(self)@, id2, i2)
                    == spec_slot_of(spec_advance(old(self)@, pass), id2, i2),
            (r matches Err(e) ==> e == (HookError {
                id,
                index,
                expected_tag: type_tag,
                found_tag: spec_slot_of(spec_advance(old(self)@, pass), id, index).unwrap().type_tag,
            }) && spec_slot_of(final(self)@, id, index) == spec_slot_of(
                spec_advance(old(self)@, pass),
                id,
                index,
            )),
            (r matches Ok(out) ==> spec_invocation_ok(
                hook,
                spec_slot_of(spec_advance(old(self)@, pass), id, index),
                spec_slot_of(final(self)@, id, index),
                type_tag,
                deps,
                out,
                pass,
            )),
    {
        let ghost hook0 = hook;
        let mut hook = hook;
        self.may_advance_frame(pass);
        let fetched = match self.get_backend(id, index, type_tag) {
            Ok(f) => f,
            Err(e) => {
                return Err(e);
            },
        };
        let ghost prior_backend: Option<B> = if fetched is Some {
            Some(fetched.unwrap().0)
        } else {
            None
        };
        let (mut backend, deps_store): (B, DepsToken) = match fetched {
            Some((b, old_deps)) => {
                if deps.equals(&old_deps) {
                    (b, old_deps)
                } else {
                    (hook.init(index, &deps, Some(b), pass), deps)
                }
            },
            None => (hook.init(index, &deps, None, pass), deps),
        };
        let ghost inited = backend;
        let ghost hook_used = hook;
        let out = hook.hook(&mut backend, pass);
        let ghost stored = backend;
        let ghost deps_g = deps_store;
        proof {
            assert(hook_used.use_rel(inited, stored, out, pass));
            assert(hook0.use_rel(inited, stored, out, pass));
        }
        self.push_backend(id, index, type_tag, backend, deps_store);
        proof {
            let d1 = spec_advance(old(self)@, pass);
            let pre = spec_slot_of(d1, id, index);
            assert(spec_slot_of(self@, id, index) == Some(
                Slot { type_tag, backend: stored, deps: deps_g },
            ));
            let s2 = spec_slot_of(self@, id, index).unwrap();
            assert(s2.backend == stored);
            assert(s2.deps == deps_g);
            assert(hook0.use_rel(inited, s2.backend, out, pass));
            match pre {
                Some(s) => {
                    if s.deps.type_tag == deps.type_tag && s.deps.words@ == deps.words@ {
                        assert(inited == s.backend);
                        assert(s2.deps == s.deps);
                        assert(hook0.use_rel(s.backend, s2.backend, out, pass));
                    } else {
                        assert(s2.deps == deps);
                        assert(hook0.init_rel(Some(s.backend), inited, pass));
                        assert(hook0.init_rel(Some(s.backend), inited, pass) && hook0.use_rel(
                            inited,
                            s2.backend,
                            out,
                            pass,
                        ));
                    }
                },
                None => {
                    assert(s2.deps == deps);
                    assert(hook0.init_rel(None, inited, pass));
                    assert(hook0.init_rel(None, inited, pass) && hook0.use_rel(
                        inited,
                        s2.backend,
                        out,
                        pass,
                    ));
                },
            }
            assert(spec_invocation_ok(
                hook0,
                pre,
                spec_slot_of(self@, id, index),
                type_tag,
                deps,
                out,
                pass,
            ));
        }
        Ok(out)
    }

    /// One full invocation of the cleanup hook at `(id, index)`: on the
    /// first invocation, and again whenever the dependency token changes,
    /// the hook's callback is registered under `id`, to run once `id` goes
    /// unreferenced for a full pass boundary.  `placeholder` is the value
    /// stored in the slot (the cleanup hook keeps no state of its own; a
    /// host mixing hook kinds passes its unit backend).
    ///
    /// Fails exactly as [`Self::use_hook_as`] does on a type-tag mismatch.
    #[verifier::rlimit(50)]
    pub fn use_cleanup(
        &mut self,
        id: u64,
        index: usize,
        pass: u64,
        type_tag: u64,
        hook: crate::hook::cleanup::CleanupHook<C>,
        deps: DepsToken,
        placeholder: B,
    ) -> (r: Result<(), HookError>)
        requires
            hook.f is Some,
        ensures
            final(self)@.frame == pass,
            (r is Err <==> (spec_slot_of(spec_advance(old(self)@, pass), id, index) matches Some(s)
                && s.type_tag != type_tag)),
            forall|id2: u64, i2: usize|
                !(id2 == id && i2 == index) ==> #[trigger] spec_slot_of(final(self)@, id2, i2)
                    == spec_slot_of(spec_advance(old(self)@, pass), id2, i2),
            (r is Err ==> final(self)@.pending == spec_advance(old(self)@, pass).pending),
            (r is Ok ==> ({
                let d1 = spec_advance(old(self)@, pass);
                let pre = spec_slot_of(d1, id, index);
                let registers = match pre {
                    Some(s) => !(s.deps.type_tag == deps.type_tag && s.deps.words@
                        == deps.words@),
                    None => true,
                };
                &&& spec_slot_of(final(self)@, id, index) matches Some(s2)
                &&& spec_slot_of(final(self)@, id, index).unwrap().type_tag == type_tag
                &&& final(self)@.pending == (if registers {
                    d1.pending.push((id, hook.f.unwrap()))
                } else {
                    d1.pending
                })
            })),
    {
        self.may_advance_frame(pass);
        let fetched = match self.get_backend(id, index, type_tag) {
            Ok(f) => f,
            Err(e) => {
                return Err(e);
            },
        };
        match fetched {
            Some((b, old_deps)) => {
                if deps.equals(&old_deps) {
                    self.push_backend(id, index, type_tag, b, old_deps);
                } else {
                    let c = match hook.f {
                        Some(c) => c,
                        None => vstd::pervasive::unreached(),
                    };
                    self.register_cleanup(id, c);
                    self.push_backend(id, index, type_tag, placeholder, deps);
                }
            },
            None => {
                let c = match hook.f {
                    Some(c) => c,
                    None => vstd::pervasive::unreached(),
                };
                self.register_cleanup(id, c);
                self.push_backend(id, index, type_tag, placeholder, deps);
            },
        }
        Ok(())
    }

    /// Reads the slot stored for `(id, index)` without renewing anything.
    pub fn peek_backend(&self, id: u64, index: usize) -> (r: Option<&Slot<B>>)
        ensures
            match r {
                Some(s) => spec_slot_of(self@, id, index) == Some(*s),
                None => spec_slot_of(self@, id, index) is None,
            },
    {
        match self.backends.peek(&id) {
            Some(h) => h.get(&index),
            None => None,
        }
    }
}

/// Through the engine, across two passes with unchanged dependencies: a
/// state slot seen by one pass, written any number of times, and invoked
/// again in the next pass reads `previous()` equal to what the first pass
/// read as `current` — and `current` equal to the last value written.
pub proof fn lemma_state_previous_across_engine_passes<T>(
    hook: crate::hook::state::StateHook<T>,
    seen: Slot<crate::hook::state::StateBackend<T>>,
    written: Slot<crate::hook::state::StateBackend<T>>,
    post: Option<Slot<crate::hook::state::StateBackend<T>>>,
    vals: Seq<T>,
    deps: DepsToken,
    pass: u64,
)
    requires
        !seen.backend@.written,
        vals.len() > 0,
        written.deps == seen.deps,
        written.backend@ == crate::hook::state::spec_apply_sets(seen.backend@, vals),
        seen.deps.type_tag == deps.type_tag && seen.deps.words@ == deps.words@,
        spec_invocation_ok(hook, Some(written), post, seen.type_tag, deps, (), pass),
    ensures
        post.unwrap().backend@.previous == Some(seen.backend@.current),
        post.unwrap().backend@.current == vals.last(),
{
    crate::hook::state::lemma_writes_compose(seen.backend@, vals);
}

/// Through the engine: an invocation whose dependency token differs from
/// the stored one reinitializes the slot — the new current value is the
/// default producer's latest output, and `previous()` reads the prior
/// pass's value, not an init-time placeholder.
pub proof fn lemma_state_dependency_change_across_engine<T>(
    hook: crate::hook::state::StateHook<T>,
    pre: Slot<crate::hook::state::StateBackend<T>>,
    post: Option<Slot<crate::hook::state::StateBackend<T>>>,
    deps: DepsToken,
    pass: u64,
    default: T,
)
    requires
        hook.inner == crate::hook::state::StateHookInner::Default(default),
        !(pre.deps.type_tag == deps.type_tag && pre.deps.words@ == deps.words@),
        spec_invocation_ok(hook, Some(pre), post, pre.type_tag, deps, (), pass),
    ensures
        post.unwrap().backend@.current == default,
        post.unwrap().backend@.previous == Some(pre.backend@.current),
{
}

} // verus!
