//! A map cleared wholesale on every pass change.
//!
//! Unlike [`crate::two_frame_map::TwoFrameMap`], nothing survives a pass
//! boundary: the map only carries values between call sites within one pass.

use vstd::prelude::*;

verus! {

use core::hash::Hash;
use std::collections::HashMap;
use vstd::std_specs::hash::obeys_key_model;

broadcast use vstd::std_specs::hash::group_hash_axioms;

/// The abstract state of an [`EphemeralMap`]: the stored pass number and the
/// entries written since it last changed.
#[verifier::ext_equal]
#[verifier::reject_recursive_types(K)]
pub struct EphemeralMapView<K, V> {
    pub frame: u64,
    pub map: Map<K, V>,
}

/// The state of a fresh map.
pub open spec fn spec_eph_initial<K, V>() -> EphemeralMapView<K, V> {
    EphemeralMapView { frame: 0, map: Map::empty() }
}

/// What advancing to `frame_nr` does: nothing if the pass number is
/// unchanged, otherwise every entry is dropped.
pub open spec fn spec_eph_advance<K, V>(
    m: EphemeralMapView<K, V>,
    frame_nr: u64,
) -> EphemeralMapView<K, V> {
    if frame_nr == m.frame {
        m
    } else {
        EphemeralMapView { frame: frame_nr, map: Map::empty() }
    }
}

/// A map whose entries live only until the next pass change.
pub struct EphemeralMap<K, V> {
    frame_nr: u64,
    map: HashMap<K, V>,
}

impl<K, V> View for EphemeralMap<K, V> {
    type V = EphemeralMapView<K, V>;

    closed spec fn view(&self) -> EphemeralMapView<K, V> {
        EphemeralMapView { frame: self.frame_nr, map: self.map@ }
    }
}

impl<K: Copy + Eq + Hash, V> Default for EphemeralMap<K, V> {
    fn default() -> (r: Self)
        ensures
            r@ == spec_eph_initial::<K, V>(),
    {
        let r = EphemeralMap { frame_nr: 0, map: HashMap::new() };
        proof {
            assert(r@ =~= spec_eph_initial::<K, V>());
        }
        r
    }
}

impl<K: Copy + Eq + Hash, V> EphemeralMap<K, V> {
    pub fn new() -> (r: Self)
        ensures
            r@ == spec_eph_initial::<K, V>(),
    {
        Self::default()
    }

    /// Clears the map if `frame_nr` differs from the stored pass number;
    /// advancing to the stored pass number is a no-op.
    pub fn may_advance_frame(&mut self, frame_nr: u64)
        ensures
            final(self)@ == spec_eph_advance(old(self)@, frame_nr),
    {
        if frame_nr != self.frame_nr {
            self.frame_nr = frame_nr;
            self.map.clear();
            proof {
                assert(self@ =~= spec_eph_advance(old(self)@, frame_nr));
            }
        }
    }

    pub fn get(&mut self, key: &K) -> (r: Option<&V>)
        requires
            obeys_key_model::<K>(),
        ensures
            final(self)@ == old(self)@,
            match r {
                Some(v) => old(self)@.map.contains_key(*key) && old(self)@.map[*key] == *v,
                None => !old(self)@.map.contains_key(*key),
            },
    {
        self.map.get(key)
    }

    /// Touches `key` and, if it is absent, fills it with `default`; returns
    /// the value now stored under `key`.
    pub fn entry(&mut self, key: K, default: V) -> (r: &V)
        requires
            obeys_key_model::<K>(),
        ensures
            final(self)@.frame == old(self)@.frame,
            final(self)@.map == (if old(self)@.map.contains_key(key) {
                old(self)@.map
            } else {
                old(self)@.map.insert(key, default)
            }),
            final(self)@.map.contains_key(key) && *r == final(self)@.map[key],
    {
        if !self.map.contains_key(&key) {
            self.map.insert(key, default);
        }
        match self.map.get(&key) {
            Some(v) => v,
            None => vstd::pervasive::unreached(),
        }
    }

    pub fn insert(&mut self, key: K, value: V) -> (r: Option<V>)
        requires
            obeys_key_model::<K>(),
        ensures
            final(self)@ == (EphemeralMapView {
                map: old(self)@.map.insert(key, value),
                ..old(self)@
            }),
            r == (if old(self)@.map.contains_key(key) {
                Some(old(self)@.map[key])
            } else {
                None::<V>
            }),
    {
        let r = self.map.insert(key, value);
        proof {
            assert(self@ =~= (EphemeralMapView {
                map: old(self)@.map.insert(key, value),
                ..old(self)@
            }));
        }
        r
    }

    pub fn remove(&mut self, key: &K) -> (r: Option<V>)
        requires
            obeys_key_model::<K>(),
        ensures
            final(self)@ == (EphemeralMapView {
                map: old(self)@.map.remove(*key),
                ..old(self)@
            }),
            r == (if old(self)@.map.contains_key(*key) {
                Some(old(self)@.map[*key])
            } else {
                None::<V>
            }),
    {
        let r = self.map.remove(key);
        proof {
            assert(self@ =~= (EphemeralMapView {
                map: old(self)@.map.remove(*key),
                ..old(self)@
            }));
        }
        r
    }
}

} // verus!
