//! Walking the keys of a hash map.

use std::collections::HashMap;
use std::hash::Hash;
use vstd::prelude::*;
use vstd::std_specs::hash::{into_iter_keys, obeys_key_model};
use vstd::std_specs::iter::IteratorSpec;

verus! {

/// The order in which `m` hands out its keys.
pub open spec fn key_order<K, V>(m: &HashMap<K, V>) -> Seq<K> {
    into_iter_keys(m.keys())
}

/// The keys of `m`, each once, in the order in which the map hands them out.
pub fn keys_of<K: Copy + Hash + Eq, V>(m: &HashMap<K, V>) -> (out: Vec<K>)
    requires
        obeys_key_model::<K>(),
    ensures
        out@ == key_order(m),
        out@.no_duplicates(),
        forall|k: K| out@.contains(k) <==> m@.contains_key(k),
{
    let mut out: Vec<K> = Vec::new();
    let ghost keys = m.keys().remaining();
    for key in it: m.keys()
        invariant
            it.seq() == keys,
            keys.unref() == key_order(m),
            out@ == keys.take(it.index()).unref(),
    {
        out.push(*key);
        assert(keys.take(it.index() + 1).unref() =~= keys.take(it.index()).unref().push(*key));
    }
    assert(keys.take(keys.len() as int) =~= keys);
    assert forall|k: K| out@.contains(k) <==> m@.contains_key(k) by {
        if out@.contains(k) {
            assert(keys.unref().to_set().contains(k));
        }
        if m@.contains_key(k) {
            assert(keys.unref().to_set().contains(k));
        }
    }
    assert forall|i: int, j: int| 0 <= i < out@.len() && 0 <= j < out@.len() && i != j implies out@[i]
        != out@[j] by {
        assert(keys[i] != keys[j]);
    }
    out
}

} // verus!
