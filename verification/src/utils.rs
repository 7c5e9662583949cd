//! Small shared helpers: compute-dispatch sizing and a map that keeps every
//! value ever pushed under a key.

use std::collections::HashMap;
use vstd::prelude::*;

verus! {

broadcast use vstd::std_specs::hash::group_hash_axioms;

/// The number of workgroups of size `subgroup_size` needed to cover `len`
/// items: the ceiling of `len / subgroup_size`.
pub open spec fn spec_dispatch_count(len: int, subgroup_size: int) -> int
    recommends
        len >= 0,
        subgroup_size > 0,
{
    (len + subgroup_size - 1) / subgroup_size
}

/// The padding that rounds `len` up to the next multiple of `subgroup_size`.
pub open spec fn spec_dispatch_padding(len: int, subgroup_size: int) -> int
    recommends
        len >= 0,
        subgroup_size > 0,
{
    (subgroup_size - len % subgroup_size) % subgroup_size
}

/// The dispatch count is exactly the ceiling of `len / subgroup_size`: its
/// tiles cover `len`, one tile fewer would not, and it collapses to plain
/// division exactly when `len` is a multiple of `subgroup_size`.
pub proof fn lemma_dispatch_count_is_ceil(len: int, subgroup_size: int)
    requires
        len >= 0,
        subgroup_size > 0,
    ensures
        spec_dispatch_count(len, subgroup_size) * subgroup_size >= len,
        (spec_dispatch_count(len, subgroup_size) - 1) * subgroup_size < len,
        len % subgroup_size == 0 ==> spec_dispatch_count(len, subgroup_size) == len
            / subgroup_size,
        len % subgroup_size != 0 ==> spec_dispatch_count(len, subgroup_size) == len
            / subgroup_size + 1,
        spec_dispatch_count(len, subgroup_size) == (len + spec_dispatch_padding(
            len,
            subgroup_size,
        )) / subgroup_size,
{
    let t = subgroup_size;
    vstd::arithmetic::div_mod::lemma_fundamental_div_mod(len, t);
    vstd::arithmetic::div_mod::lemma_mod_bound(len, t);
    let q = len / t;
    let r = len % t;
    if r == 0 {
        assert(len + t - 1 == q * t + (t - 1)) by (nonlinear_arith)
            requires
                len == t * q,
        ;
        vstd::arithmetic::div_mod::lemma_fundamental_div_mod_converse(len + t - 1, t, q, t - 1);
        assert(q * t >= len && (q - 1) * t < len) by (nonlinear_arith)
            requires
                len == t * q && t > 0,
        ;
        vstd::arithmetic::div_mod::lemma_mod_self_0(t);
        assert(spec_dispatch_padding(len, t) == 0);
    } else {
        assert(len + t - 1 == (q + 1) * t + (r - 1)) by (nonlinear_arith)
            requires
                len == t * q + r,
        ;
        vstd::arithmetic::div_mod::lemma_fundamental_div_mod_converse(len + t - 1, t, q + 1, r - 1);
        assert((q + 1) * t >= len && q * t < len) by (nonlinear_arith)
            requires
                len == t * q + r && 0 < r < t,
        ;
        vstd::arithmetic::div_mod::lemma_small_mod((t - r) as nat, t as nat);
        assert(spec_dispatch_padding(len, t) == t - r);
        assert(len + (t - r) == (q + 1) * t + 0) by (nonlinear_arith)
            requires
                len == t * q + r,
        ;
        vstd::arithmetic::div_mod::lemma_fundamental_div_mod_converse(len + (t - r), t, q + 1, 0);
    }
}

/// Workgroup count for a compute dispatch over `len` items with tiles of
/// `subgroup_size` threads: `len / subgroup_size`, rounded up.
pub fn dispatch_optimal(len: u32, subgroup_size: u32) -> (count: u32)
    requires
        subgroup_size > 0,
        len + spec_dispatch_padding(len as int, subgroup_size as int) <= u32::MAX,
    ensures
        count == spec_dispatch_count(len as int, subgroup_size as int),
{
    proof {
        lemma_dispatch_count_is_ceil(len as int, subgroup_size as int);
    }
    let padded_size = (subgroup_size - len % subgroup_size) % subgroup_size;
    (len + padded_size) / subgroup_size
}

/// A hash map from integer keys to all the values ever pushed under each key,
/// in push order.
pub struct ContinuousHashMap<V> {
    map: HashMap<u64, Vec<V>>,
}

impl<V> View for ContinuousHashMap<V> {
    type V = Map<u64, Seq<V>>;

    closed spec fn view(&self) -> Map<u64, Seq<V>> {
        self.map@.map_values(|values: Vec<V>| values@)
    }
}

impl<V> Default for ContinuousHashMap<V> {
    /// An empty map; no key holds any value yet.
    fn default() -> (m: Self)
        ensures
            m@ == Map::<u64, Seq<V>>::empty(),
    {
        let m = ContinuousHashMap { map: HashMap::new() };
        proof {
            assert(m@ =~= Map::<u64, Seq<V>>::empty());
        }
        m
    }
}

impl<V> ContinuousHashMap<V> {
    /// Creates an empty map; no key holds any value yet.
    pub fn new() -> (m: Self)
        ensures
            m@ == Map::<u64, Seq<V>>::empty(),
    {
        Self::default()
    }

    /// The values pushed under `key` so far, in push order; `None` if the
    /// key was never pushed to.
    pub fn get(&self, key: u64) -> (r: Option<&Vec<V>>)
        ensures
            match r {
                Some(values) => self@.contains_key(key) && values@ == self@[key],
                None => !self@.contains_key(key),
            },
    {
        self.map.get(&key)
    }

    /// Appends `value` to the values held under `key`; earlier values under
    /// the same key are kept, and every other key is untouched.
    pub fn push_value(&mut self, key: u64, value: V)
        ensures
            final(self)@ == old(self)@.insert(
                key,
                if old(self)@.contains_key(key) {
                    old(self)@[key].push(value)
                } else {
                    seq![value]
                },
            ),
    {
        let ghost pre = self.map@;
        match self.map.remove(&key) {
            Some(mut values) => {
                values.push(value);
                self.map.insert(key, values);
                proof {
                    assert(self.map@ == pre.remove(key).insert(key, self.map@[key]));
                    assert(self@ =~= old(self)@.insert(key, old(self)@[key].push(value)));
                }
            },
            None => {
                let mut values = Vec::new();
                values.push(value);
                self.map.insert(key, values);
                proof {
                    assert(self@ =~= old(self)@.insert(key, seq![value]));
                }
            },
        }
    }
}

} // verus!
