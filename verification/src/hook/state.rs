//! The state hook: a double-buffered value cell.
//!
//! The cell holds a `current` and an optional `previous` snapshot.  During
//! a pass, `set_next` and `update_next` replace the pending `current` that
//! the *next* pass will see, while `previous` is pinned to the value that
//! was current when the pass began — however many writes happen, `previous`
//! never reports an intermediate pending value.  The `written` flag records
//! whether the pass has written yet; the first write of a pass is what
//! moves the pass-start value into `previous`.

use vstd::prelude::*;

verus! {

use crate::hook::Hook;

/// The abstract state of a cell: the pending current value, the previous
/// snapshot, and whether the running pass has written yet.
#[verifier::ext_equal]
pub struct StateView<T> {
    pub current: T,
    pub previous: Option<T>,
    pub written: bool,
}

/// A cell built by a first initialization: the default, no previous value.
pub open spec fn spec_first_init<T>(default: T) -> StateView<T> {
    StateView { current: default, previous: None, written: false }
}

/// Re-initialization after a dependency change: the freshly produced
/// default replaces `current` and the prior current becomes `previous` —
/// the same terminal shape as a normal update.
pub open spec fn spec_reinit<T>(b: StateView<T>, default: T) -> StateView<T> {
    StateView { current: default, previous: Some(b.current), written: false }
}

/// A pass boundary for the cell: the pending value becomes the value the
/// pass reads, and the pass has not written yet.
pub open spec fn spec_begin_pass<T>(b: StateView<T>) -> StateView<T> {
    StateView { written: false, ..b }
}

/// One write: `next` becomes the pending current; `previous` moves to the
/// pass-start value on the first write of the pass and stays put after.
pub open spec fn spec_set_next<T>(b: StateView<T>, next: T) -> StateView<T> {
    StateView {
        current: next,
        previous: if b.written {
            b.previous
        } else {
            Some(b.current)
        },
        written: true,
    }
}

/// The two buffered snapshots, exactly as a reader sees them.
pub struct StateBackendInner<T> {
    pub current: T,
    pub previous: Option<T>,
}

/// The state hook's backend: the double-buffered cell.
pub struct StateBackend<T> {
    inner: StateBackendInner<T>,
    written: bool,
}

impl<T> View for StateBackend<T> {
    type V = StateView<T>;

    closed spec fn view(&self) -> StateView<T> {
        StateView {
            current: self.inner.current,
            previous: self.inner.previous,
            written: self.written,
        }
    }
}

impl<T> StateBackend<T> {
    pub fn new(current: T, previous: Option<T>) -> (r: Self)
        ensures
            r@ == (StateView { current, previous, written: false }),
    {
        StateBackend { inner: StateBackendInner { current, previous }, written: false }
    }

    /// Reads both snapshots.
    pub fn load(&self) -> (r: &StateBackendInner<T>)
        ensures
            r.current == self@.current,
            r.previous == self@.previous,
    {
        &self.inner
    }

    /// The pending current value.
    pub fn current(&self) -> (r: &T)
        ensures
            *r == self@.current,
    {
        &self.inner.current
    }

    /// The previous snapshot: the value the cell held before the first
    /// write of the pass that last wrote it.
    pub fn previous(&self) -> (r: Option<&T>)
        ensures
            match r {
                Some(v) => self@.previous == Some(*v),
                None => self@.previous is None,
            },
    {
        self.inner.previous.as_ref()
    }

    /// Marks a pass boundary: what was pending is now what the pass reads.
    pub fn begin_pass(&mut self)
        ensures
            final(self)@ == spec_begin_pass(old(self)@),
    {
        self.written = false;
    }

    /// Replaces `current` with a freshly produced default after a
    /// dependency change, pushing the prior current into `previous`.
    pub fn reinit(&mut self, default: T)
        ensures
            final(self)@ == spec_reinit(old(self)@, default),
    {
        let mut cur = default;
        core::mem::swap(&mut cur, &mut self.inner.current);
        self.inner.previous = Some(cur);
        self.written = false;
    }

    /// Stores the value the next pass will read.  Chained writes within one
    /// pass compose: each replaces the pending value, while `previous`
    /// stays pinned to the pass-start value.
    pub fn set_next(&mut self, next: T)
        ensures
            final(self)@ == spec_set_next(old(self)@, next),
    {
        if !self.written {
            let mut cur = next;
            core::mem::swap(&mut cur, &mut self.inner.current);
            self.inner.previous = Some(cur);
            self.written = true;
        } else {
            self.inner.current = next;
        }
    }

    /// Applies `f` to whatever is currently pending and stores the result,
    /// so chained `update_next` calls compose; `previous` stays pinned to
    /// the pass-start value, exactly as for `set_next`.
    pub fn update_next<F: Fn(&T) -> T>(&mut self, f: F)
        requires
            call_requires(f, (&old(self)@.current,)),
        ensures
            call_ensures(f, (&old(self)@.current,), final(self)@.current),
            final(self)@.previous == spec_set_next(old(self)@, final(self)@.current).previous,
            final(self)@.written,
    {
        let next = f(&self.inner.current);
        self.set_next(next);
    }
}

/// What remains of a state hook after its one-shot default was taken.
pub enum StateHookInner<T> {
    Default(T),
    Taken,
}

impl<T> StateHookInner<T> {
    /// Takes the pending default out.  Taking twice without re-creating the
    /// hook means the hook's initialization ran twice — a programming
    /// error, ruled out here rather than detected at run time.
    pub fn take(&mut self) -> (r: T)
        requires
            *old(self) is Default,
        ensures
            *old(self) matches StateHookInner::Default(d) && r == d,
            *final(self) is Taken,
    {
        let mut tmp = StateHookInner::Taken;
        core::mem::swap(self, &mut tmp);
        match tmp {
            StateHookInner::Default(d) => d,
            StateHookInner::Taken => vstd::pervasive::unreached(),
        }
    }
}

/// The state hook: gives a call site a retained value, starting from a
/// default and replaced across passes through the cell's deferred writes.
pub struct StateHook<T> {
    pub inner: StateHookInner<T>,
}

impl<T> StateHook<T> {
    pub fn new(default: T) -> (r: Self)
        ensures
            r.inner == StateHookInner::Default(default),
    {
        StateHook { inner: StateHookInner::Default(default) }
    }
}

impl<T> Hook for StateHook<T> {
    type Backend = StateBackend<T>;

    type Output = ();

    open spec fn inits(&self) -> bool {
        self.inner is Default
    }

    open spec fn usable(&self) -> bool {
        true
    }

    open spec fn init_rel(&self, prior: Option<StateBackend<T>>, b: StateBackend<T>, pass: u64) -> bool {
        match self.inner {
            StateHookInner::Default(d) => match prior {
                Some(p) => b@ == spec_reinit(p@, d),
                None => b@ == spec_first_init(d),
            },
            StateHookInner::Taken => false,
        }
    }

    open spec fn use_rel(&self, b0: StateBackend<T>, b1: StateBackend<T>, out: (), pass: u64) -> bool {
        b1@ == spec_begin_pass(b0@)
    }

    fn init(&mut self, index: usize, deps: &crate::deps::DepsToken, prior: Option<StateBackend<T>>, pass: u64) -> (b: StateBackend<T>) {
        let d = self.inner.take();
        match prior {
            Some(mut p) => {
                p.reinit(d);
                p
            },
            None => StateBackend::new(d, None),
        }
    }

    fn hook(self, backend: &mut StateBackend<T>, pass: u64) {
        backend.begin_pass();
    }
}

/// A chain of writes applied to a cell within one pass.
pub open spec fn spec_apply_sets<T>(b: StateView<T>, vals: Seq<T>) -> StateView<T>
    decreases vals.len(),
{
    if vals.len() == 0 {
        b
    } else {
        spec_set_next(spec_apply_sets(b, vals.drop_last()), vals.last())
    }
}

/// However many writes a pass makes, they compose — the net effect is the
/// last value written — while `previous` reports the pass-start value, not
/// any intermediate pending value.
pub proof fn lemma_writes_compose<T>(b: StateView<T>, vals: Seq<T>)
    requires
        !b.written,
        vals.len() > 0,
    ensures
        spec_apply_sets(b, vals).current == vals.last(),
        spec_apply_sets(b, vals).previous == Some(b.current),
        spec_apply_sets(b, vals).written,
    decreases vals.len(),
{
    if vals.len() > 1 {
        lemma_writes_compose(b, vals.drop_last());
    } else {
        assert(vals.drop_last().len() == 0);
        assert(spec_apply_sets(b, vals.drop_last()) == b);
    }
}

/// Across two consecutive passes with unchanged dependencies, the second
/// pass's `previous` equals what the first pass read as `current` —
/// provided the first pass wrote at least once.  (A pass that never writes
/// leaves `previous` untouched, so the claim needs the writes.)
pub proof fn lemma_previous_is_last_pass_current<T>(b: StateView<T>, vals: Seq<T>)
    requires
        !b.written,
        vals.len() > 0,
    ensures
        spec_begin_pass(spec_apply_sets(b, vals)).previous == Some(b.current),
{
    lemma_writes_compose(b, vals);
}

/// A dependency change between two passes forces reinitialization: the new
/// current value is the default producer's latest output, and `previous`
/// reports the prior pass's value — not an init-time placeholder.
pub proof fn lemma_dependency_change_reinitializes<T>(b: StateView<T>, default: T)
    ensures
        spec_reinit(b, default).current == default,
        spec_reinit(b, default).previous == Some(b.current),
{
}

} // verus!
