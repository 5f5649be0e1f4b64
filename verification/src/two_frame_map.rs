//! A map with two-generation retention.
//!
//! Entries written during the current pass live in the `current` generation;
//! on a pass change the whole `current` generation becomes `previous` and the
//! old `previous` generation is discarded.  Reading a key promotes it from
//! `previous` back to `current`, renewing its retention, so an entry survives
//! as long as it is touched at least once every two passes.
//!
//! Cleanup callbacks can be registered under a key; they stay pending while
//! the key is retained and run exactly once, at the pass boundary that drops
//! the key.  The callback values are owned by the map and moved out as they
//! run, so no callback can run twice.

use vstd::prelude::*;

verus! {

use core::hash::Hash;
use std::collections::HashMap;
use crate::cleanup::Cleanup;
use vstd::std_specs::hash::obeys_key_model;

broadcast use vstd::std_specs::hash::group_hash_axioms, vstd::seq_lib::group_filter_ensures;

/// The pending cleanup callbacks of a [`TwoFrameMap`], each paired with the
/// key whose removal triggers it.
pub struct Cleanups<K, C> {
    vec: Vec<(K, C)>,
}

impl<K, C> View for Cleanups<K, C> {
    type V = Seq<(K, C)>;

    closed spec fn view(&self) -> Seq<(K, C)> {
        self.vec@
    }
}

impl<K, C> Default for Cleanups<K, C> {
    fn default() -> (r: Self)
        ensures
            r@ == Seq::<(K, C)>::empty(),
    {
        Cleanups { vec: Vec::new() }
    }
}

/// The abstract state of a [`TwoFrameMap`]: the stored pass number, both
/// generations, and the pending cleanups in registration order.
#[verifier::ext_equal]
#[verifier::reject_recursive_types(K)]
pub struct TwoFrameMapView<K, V, C> {
    pub frame: u64,
    pub cur: Map<K, V>,
    pub prev: Map<K, V>,
    pub pending: Seq<(K, C)>,
}

/// The predicate selecting the pending cleanups that survive an advance:
/// those whose key is still retained.
pub open spec fn key_kept<K, C>(kept: Set<K>) -> spec_fn((K, C)) -> bool {
    |e: (K, C)| kept.contains(e.0)
}

/// The state of a fresh map.
pub open spec fn spec_initial<K, V, C>() -> TwoFrameMapView<K, V, C> {
    TwoFrameMapView {
        frame: 0,
        cur: Map::empty(),
        prev: Map::empty(),
        pending: Seq::empty(),
    }
}

/// What advancing to `frame_nr` does: nothing if the pass number is
/// unchanged; otherwise the current generation becomes the previous one,
/// the old previous generation is discarded, and only the cleanups whose
/// key survived stay pending (the others run as they are dropped).
pub open spec fn spec_advance<K, V, C>(
    m: TwoFrameMapView<K, V, C>,
    frame_nr: u64,
) -> TwoFrameMapView<K, V, C> {
    if frame_nr == m.frame {
        m
    } else {
        TwoFrameMapView {
            frame: frame_nr,
            cur: Map::empty(),
            prev: m.cur,
            pending: m.pending.filter(key_kept(m.cur.dom())),
        }
    }
}

/// The value stored under `k` in either generation, preferring the current
/// one.
pub open spec fn spec_lookup<K, V, C>(m: TwoFrameMapView<K, V, C>, k: K) -> Option<V> {
    if m.cur.contains_key(k) {
        Some(m.cur[k])
    } else if m.prev.contains_key(k) {
        Some(m.prev[k])
    } else {
        None
    }
}

/// What reading `k` does to the map: a key found only in the previous
/// generation is promoted into the current one, which renews its retention.
pub open spec fn spec_touch<K, V, C>(
    m: TwoFrameMapView<K, V, C>,
    k: K,
) -> TwoFrameMapView<K, V, C> {
    if m.cur.contains_key(k) {
        m
    } else if m.prev.contains_key(k) {
        TwoFrameMapView { cur: m.cur.insert(k, m.prev[k]), prev: m.prev.remove(k), ..m }
    } else {
        m
    }
}

/// What `entry` does: touch the key, then fill it with `d` if it is absent
/// from both generations.
pub open spec fn spec_entry<K, V, C>(
    m: TwoFrameMapView<K, V, C>,
    k: K,
    d: V,
) -> TwoFrameMapView<K, V, C> {
    let t = spec_touch(m, k);
    if t.cur.contains_key(k) {
        t
    } else {
        TwoFrameMapView { cur: t.cur.insert(k, d), ..t }
    }
}

/// A map that retains entries for the current and the immediately preceding
/// pass, and runs registered cleanup callbacks for entries it drops.
pub struct TwoFrameMap<K, V, C> {
    frame_nr: u64,
    current: HashMap<K, V>,
    previous: HashMap<K, V>,
    cleanup: Cleanups<K, C>,
}

impl<K, V, C> View for TwoFrameMap<K, V, C> {
    type V = TwoFrameMapView<K, V, C>;

    closed spec fn view(&self) -> TwoFrameMapView<K, V, C> {
        TwoFrameMapView {
            frame: self.frame_nr,
            cur: self.current@,
            prev: self.previous@,
            pending: self.cleanup@,
        }
    }
}

impl<K: Copy + Eq + Hash, V, C> Default for TwoFrameMap<K, V, C> {
    fn default() -> (r: Self)
        ensures
            r@ == spec_initial::<K, V, C>(),
    {
        let r = TwoFrameMap {
            frame_nr: 0,
            current: HashMap::new(),
            previous: HashMap::new(),
            cleanup: Cleanups { vec: Vec::new() },
        };
        proof {
            assert(r@ =~= spec_initial::<K, V, C>());
        }
        r
    }
}

impl<K: Copy + Eq + Hash, V: Clone, C> Clone for TwoFrameMap<K, V, C> {
    /// Clones both generations.  Pending cleanups are one-shot and stay
    /// with the original: the clone starts with none.
    fn clone(&self) -> (r: Self)
        ensures
            r@.frame == self@.frame,
            r@.cur == self@.cur,
            r@.prev == self@.prev,
            r@.pending == Seq::<(K, C)>::empty(),
    {
        TwoFrameMap {
            frame_nr: self.frame_nr,
            current: self.current.clone(),
            previous: self.previous.clone(),
            cleanup: Cleanups { vec: Vec::new() },
        }
    }
}

impl<K: Copy + Eq + Hash, V, C: Cleanup> TwoFrameMap<K, V, C> {
    pub fn new() -> (r: Self)
        ensures
            r@ == spec_initial::<K, V, C>(),
    {
        Self::default()
    }

    /// Advances to `frame_nr` if it differs from the stored pass number:
    /// the current generation becomes the previous one, the old previous
    /// generation is dropped, and each pending cleanup whose key fell out
    /// of retention runs, exactly once, as it is removed from the pending
    /// list.  Advancing to the stored pass number is a no-op.
    pub fn may_advance_frame(&mut self, frame_nr: u64)
        requires
            obeys_key_model::<K>(),
        ensures
            final(self)@ == spec_advance(old(self)@, frame_nr),
    {
        if frame_nr != self.frame_nr {
            self.frame_nr = frame_nr;
            let mut dropped: HashMap<K, V> = HashMap::new();
            core::mem::swap(&mut dropped, &mut self.current);
            core::mem::swap(&mut dropped, &mut self.previous);
            // dropped now holds the old previous generation and is discarded
            let mut remaining: Vec<(K, C)> = Vec::new();
            core::mem::swap(&mut remaining, &mut self.cleanup.vec);
            let ghost orig: Seq<(K, C)> = remaining@;
            let ghost keptset: Set<K> = self.previous@.dom();
            while remaining.len() > 0
                invariant
                    obeys_key_model::<K>(),
                    remaining@.len() <= orig.len(),
                    remaining@ == orig.subrange(
                        orig.len() - remaining@.len(),
                        orig.len() as int,
                    ),
                    self.cleanup.vec@ == orig.take(orig.len() - remaining@.len()).filter(
                        key_kept(keptset),
                    ),
                    self.previous@.dom() == keptset,
                    self.frame_nr == frame_nr,
                    self.current@ == Map::<K, V>::empty(),
                    self.previous@ == old(self)@.cur,
                decreases remaining@.len(),
            {
                let ghost i: int = orig.len() - remaining@.len();
                let (key, mut c) = remaining.remove(0);
                proof {
                    assert(key == orig[i].0);
                    assert(c == orig[i].1);
                    lemma_filter_take_step(orig, key_kept::<K, C>(keptset), i);
                }
                if self.previous.contains_key(&key) {
                    self.cleanup.vec.push((key, c));
                    proof {
                        assert((key, c) == orig[i]);
                    }
                } else {
                    c.cleanup();
                }
                proof {
                    assert(remaining@ =~= orig.subrange(i + 1, orig.len() as int));
                }
            }
            proof {
                assert(orig.take(orig.len() as int) =~= orig);
                assert(self@ =~= spec_advance(old(self)@, frame_nr));
            }
        }
    }

    /// Looks `key` up in either generation, promoting it into the current
    /// one (and thereby renewing its retention) if it was only in the
    /// previous one.
    pub fn get(&mut self, key: &K) -> (r: Option<&V>)
        requires
            obeys_key_model::<K>(),
        ensures
            final(self)@ == spec_touch(old(self)@, *key),
            match r {
                Some(v) => spec_lookup(old(self)@, *key) == Some(*v),
                None => spec_lookup(old(self)@, *key) is None,
            },
    {
        if !self.current.contains_key(key) {
            match self.previous.remove(key) {
                Some(value) => {
                    self.current.insert(*key, value);
                }
                None => {},
            }
        }
        proof {
            assert(self@ =~= spec_touch(old(self)@, *key));
        }
        self.current.get(key)
    }

    /// Looks `key` up in either generation without promoting it: the read
    /// does not renew the entry's retention.
    pub fn peek(&self, key: &K) -> (r: Option<&V>)
        requires
            obeys_key_model::<K>(),
        ensures
            match r {
                Some(v) => spec_lookup(self@, *key) == Some(*v),
                None => spec_lookup(self@, *key) is None,
            },
    {
        match self.current.get(key) {
            Some(v) => Some(v),
            None => self.previous.get(key),
        }
    }

    /// Removes and returns the value stored under `key`, from whichever
    /// generation holds it.  Verus functions cannot hand out mutable
    /// borrows, so in-place mutation is: take the value out, edit it, and
    /// `insert` it back — and the re-insert is what renews the entry's
    /// retention, exactly as a `get` would.
    pub fn get_mut(&mut self, key: &K) -> (r: Option<V>)
        requires
            obeys_key_model::<K>(),
        ensures
            r == spec_lookup(old(self)@, *key),
            final(self)@ == (TwoFrameMapView {
                cur: old(self)@.cur.remove(*key),
                prev: old(self)@.prev.remove(*key),
                ..old(self)@
            }),
    {
        let from_current = self.current.remove(key);
        let from_previous = self.previous.remove(key);
        let r = match from_current {
            Some(v) => Some(v),
            None => from_previous,
        };
        proof {
            assert(self@ =~= (TwoFrameMapView {
                cur: old(self)@.cur.remove(*key),
                prev: old(self)@.prev.remove(*key),
                ..old(self)@
            }));
        }
        r
    }

    /// Touches `key` and, if it is absent from both generations, fills it
    /// with `default`; returns the value now stored under `key` in the
    /// current generation.
    pub fn entry(&mut self, key: K, default: V) -> (r: &V)
        requires
            obeys_key_model::<K>(),
        ensures
            final(self)@ == spec_entry(old(self)@, key, default),
            final(self)@.cur.contains_key(key) && *r == final(self)@.cur[key],
    {
        if !self.current.contains_key(&key) {
            match self.previous.remove(&key) {
                Some(value) => {
                    self.current.insert(key, value);
                }
                None => {
                    self.current.insert(key, default);
                },
            }
        }
        proof {
            assert(self@ =~= spec_entry(old(self)@, key, default));
        }
        match self.current.get(&key) {
            Some(v) => v,
            None => vstd::pervasive::unreached(),
        }
    }

    /// Writes `value` under `key` in the current generation.
    pub fn insert(&mut self, key: K, value: V)
        requires
            obeys_key_model::<K>(),
        ensures
            final(self)@ == (TwoFrameMapView {
                cur: old(self)@.cur.insert(key, value),
                ..old(self)@
            }),
    {
        self.current.insert(key, value);
        proof {
            assert(self@ =~= (TwoFrameMapView {
                cur: old(self)@.cur.insert(key, value),
                ..old(self)@
            }));
        }
    }

    /// Whether either generation holds `key`.
    pub fn contains_key(&mut self, key: &K) -> (r: bool)
        requires
            obeys_key_model::<K>(),
        ensures
            r == (old(self)@.cur.contains_key(*key) || old(self)@.prev.contains_key(*key)),
            final(self)@ == old(self)@,
    {
        self.current.contains_key(key) || self.previous.contains_key(key)
    }

    /// The current generation.
    pub fn current(&self) -> (r: &HashMap<K, V>)
        ensures
            r@ == self@.cur,
    {
        &self.current
    }

    /// The previous generation.
    pub fn previous(&self) -> (r: &HashMap<K, V>)
        ensures
            r@ == self@.prev,
    {
        &self.previous
    }

    /// Registers a cleanup to run at the pass boundary that drops `key`.
    pub fn register_cleanup(&mut self, key: K, cleanup: C)
        ensures
            final(self)@ == (TwoFrameMapView {
                pending: old(self)@.pending.push((key, cleanup)),
                ..old(self)@
            }),
    {
        self.cleanup.vec.push((key, cleanup));
        proof {
            assert(self@ =~= (TwoFrameMapView {
                pending: old(self)@.pending.push((key, cleanup)),
                ..old(self)@
            }));
        }
    }
}

/// One unfolding step of `Seq::filter` along a prefix, matching a loop that
/// processes a sequence front to back.
proof fn lemma_filter_take_step<A>(s: Seq<A>, p: spec_fn(A) -> bool, i: int)
    requires
        0 <= i < s.len(),
    ensures
        s.take(i + 1).filter(p) == (if p(s[i]) {
            s.take(i).filter(p).push(s[i])
        } else {
            s.take(i).filter(p)
        }),
{
    reveal(Seq::filter);
    assert(s.take(i + 1).drop_last() =~= s.take(i));
    assert(s.take(i + 1).last() == s[i]);
}

/// Advancing to the same pass number twice in a row is a no-op: the second
/// advance loses no entry and removes (hence runs) no pending cleanup.
pub proof fn lemma_advance_idempotent<K, V, C>(m: TwoFrameMapView<K, V, C>, frame_nr: u64)
    ensures
        spec_advance(spec_advance(m, frame_nr), frame_nr) == spec_advance(m, frame_nr),
{
}

/// A key referenced in the pass that ends survives the boundary: its value
/// moves to the previous generation unchanged, and every cleanup registered
/// under it stays pending — none of them runs.
pub proof fn lemma_referenced_key_retained<K, V, C>(
    m: TwoFrameMapView<K, V, C>,
    f: u64,
    k: K,
)
    requires
        f != m.frame,
        m.cur.contains_key(k),
    ensures
        spec_advance(m, f).prev.contains_key(k),
        spec_advance(m, f).prev[k] == m.cur[k],
        forall|i: int|
            0 <= i < m.pending.len() && m.pending[i].0 == k ==> spec_advance(
                m,
                f,
            ).pending.contains(m.pending[i]),
{
    let p = key_kept::<K, C>(m.cur.dom());
    assert forall|i: int|
        0 <= i < m.pending.len() && m.pending[i].0 == k implies spec_advance(
        m,
        f,
    ).pending.contains(m.pending[i]) by {
        assert(p(m.pending[i]));
    }
}

/// A key unreferenced for two consecutive pass boundaries is gone, and no
/// cleanup registered under it is still pending afterwards: each such
/// cleanup ran, exactly once, at the boundary that dropped the key.
pub proof fn lemma_unreferenced_key_dropped<K, V, C>(
    m: TwoFrameMapView<K, V, C>,
    f1: u64,
    f2: u64,
    k: K,
)
    requires
        f1 != m.frame,
        f2 != f1,
    ensures
        ({
            let m2 = spec_advance(spec_advance(m, f1), f2);
            &&& !m2.cur.contains_key(k)
            &&& !m2.prev.contains_key(k)
            &&& forall|i: int| 0 <= i < m2.pending.len() ==> m2.pending[i].0 != k
        }),
{
    let m1 = spec_advance(m, f1);
    let m2 = spec_advance(m1, f2);
    let p = key_kept::<K, C>(m1.cur.dom());
    assert forall|i: int| 0 <= i < m2.pending.len() implies m2.pending[i].0 != k by {
        assert(p(m2.pending[i]));
    }
}

/// A key touched during the pass after a boundary is retained across the
/// next boundary with its value intact, and its registered cleanups stay
/// pending throughout: touching within one pass boundary prevents cleanup.
pub proof fn lemma_touched_key_survives_next_boundary<K, V, C>(
    m: TwoFrameMapView<K, V, C>,
    f1: u64,
    f2: u64,
    k: K,
)
    requires
        f1 != m.frame,
        f2 != f1,
        m.cur.contains_key(k),
    ensures
        ({
            let m2 = spec_advance(spec_touch(spec_advance(m, f1), k), f2);
            &&& m2.prev.contains_key(k)
            &&& m2.prev[k] == m.cur[k]
            &&& forall|i: int|
                0 <= i < m.pending.len() && m.pending[i].0 == k ==> m2.pending.contains(
                    m.pending[i],
                )
        }),
{
    let m1 = spec_advance(m, f1);
    let t = spec_touch(m1, k);
    let m2 = spec_advance(t, f2);
    lemma_referenced_key_retained(m, f1, k);
    assert(t.cur.contains_key(k) && t.cur[k] == m.cur[k]);
    let touched_kept = key_kept::<K, C>(t.cur.dom());
    assert forall|i: int|
        0 <= i < m.pending.len() && m.pending[i].0 == k implies m2.pending.contains(
        m.pending[i],
    ) by {
        assert(m1.pending.contains(m.pending[i]));
        let j = choose|j: int|
            0 <= j < m1.pending.len() && m1.pending[j] == m.pending[i];
        assert(touched_kept(m1.pending[j]));
        assert(m2.pending.contains(m1.pending[j]));
    }
}

} // verus!
