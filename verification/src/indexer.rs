//! Call-site indices.
//!
//! Within one pass, each hook invocation under a given identity gets a
//! sequential index starting at zero, assigned in invocation order; the
//! counters reset whenever the pass number changes.  Hooks must therefore be
//! invoked in the same order on every pass for an identity, which is what
//! lets an index name the same call site across passes.

use vstd::prelude::*;

verus! {

use std::collections::HashMap;

broadcast use vstd::std_specs::hash::group_hash_axioms;

/// The abstract state of a [`HookIndexer`]: the pass the counters belong to
/// and the number of indices handed out per identity during that pass.
#[verifier::ext_equal]
pub struct HookIndexerView {
    pub frame: u64,
    pub counters: Map<u64, usize>,
}

/// How many indices were handed out for `id`, counting a missing entry as
/// zero.
pub open spec fn spec_count(v: HookIndexerView, id: u64) -> usize {
    if v.counters.contains_key(id) {
        v.counters[id]
    } else {
        0
    }
}

/// The index `next_index` returns: the identity's counter, reset to zero on
/// a pass change.
pub open spec fn spec_next_index(v: HookIndexerView, id: u64, pass: u64) -> usize {
    if pass == v.frame {
        spec_count(v, id)
    } else {
        0
    }
}

/// The indexer state after `next_index`.
pub open spec fn spec_after_next_index(v: HookIndexerView, id: u64, pass: u64) -> HookIndexerView {
    let base = if pass == v.frame {
        v.counters
    } else {
        Map::<u64, usize>::empty()
    };
    HookIndexerView {
        frame: pass,
        counters: base.insert(id, (spec_next_index(v, id, pass) + 1) as usize),
    }
}

/// Assigns call-site indices: sequential per identity within a pass,
/// starting at zero, reset on every pass change.
pub struct HookIndexer {
    frame_nr: u64,
    counters: HashMap<u64, usize>,
}

impl View for HookIndexer {
    type V = HookIndexerView;

    closed spec fn view(&self) -> HookIndexerView {
        HookIndexerView { frame: self.frame_nr, counters: self.counters@ }
    }
}

impl HookIndexer {
    pub fn new() -> (r: Self)
        ensures
            r@ == (HookIndexerView { frame: 0, counters: Map::<u64, usize>::empty() }),
    {
        let r = HookIndexer { frame_nr: 0, counters: HashMap::new() };
        proof {
            assert(r@ =~= (HookIndexerView { frame: 0, counters: Map::<u64, usize>::empty() }));
        }
        r
    }

    /// Hands out the next index for `id` during pass `pass`.  Indices are
    /// sequential from zero per `(identity, pass)`, so no index is ever
    /// handed out twice within one pass.
    pub fn next_index(&mut self, id: u64, pass: u64) -> (r: usize)
        requires
            pass == old(self)@.frame ==> spec_count(old(self)@, id) < usize::MAX,
        ensures
            r == spec_next_index(old(self)@, id, pass),
            final(self)@ == spec_after_next_index(old(self)@, id, pass),
    {
        if pass != self.frame_nr {
            self.frame_nr = pass;
            self.counters.clear();
        }
        let c: usize = match self.counters.get(&id) {
            Some(n) => *n,
            None => 0,
        };
        self.counters.insert(id, c + 1);
        proof {
            assert(self@ =~= spec_after_next_index(old(self)@, id, pass));
        }
        c
    }
}

/// Two consecutive invocations under one identity within one pass get
/// distinct, consecutive indices.
pub proof fn lemma_index_not_reused(v: HookIndexerView, id: u64, pass: u64)
    requires
        spec_next_index(v, id, pass) < usize::MAX,
    ensures
        ({
            let first = spec_next_index(v, id, pass);
            let second = spec_next_index(spec_after_next_index(v, id, pass), id, pass);
            second == first + 1 && second != first
        }),
{
}

} // verus!
