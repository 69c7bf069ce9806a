//! The keys of an ordered map, in their order.

use std::collections::BTreeMap;
use vstd::prelude::*;
use vstd::laws_cmp::group_laws_cmp;
use vstd::std_specs::btree::axiom_increasing_seq_meaning;
use vstd::std_specs::btree::group_btree_axioms;
use vstd::std_specs::btree::increasing_seq;
use vstd::std_specs::cmp::OrdSpec;
use vstd::std_specs::iter::IteratorSpec;

verus! {

broadcast use group_btree_axioms;

/// Whether a sequence of ids is strictly ascending.
pub open spec fn ascending(ids: Seq<u32>) -> bool {
    forall|i: int, j: int| 0 <= i < j < ids.len() ==> ids[i] < ids[j]
}

/// Whether `a` comes before `b` in the order of their type.
pub open spec fn precedes<K: Ord>(a: K, b: K) -> bool {
    a.cmp_spec(&b) is Less
}

/// In an increasing sequence, what stands earlier comes before what stands
/// later.
proof fn lemma_increasing<K: Ord>(s: Seq<K>)
    requires
        vstd::laws_cmp::obeys_cmp::<K>(),
        increasing_seq(s),
    ensures
        forall|i: int, j: int| 0 <= i < j < s.len() ==> precedes(#[trigger] s[i], #[trigger] s[j]),
{
    axiom_increasing_seq_meaning::<K>(s);
}

/// The keys of `map`, each once, in ascending order.
pub fn keys_in_order<V>(map: &BTreeMap<u32, V>) -> (keys: Vec<u32>)
    ensures
        ascending(keys@),
        keys@.no_duplicates(),
        forall|key: u32| keys@.contains(key) <==> map@.contains_key(key),
{
    let mut keys: Vec<u32> = Vec::new();
    for key in it: map.keys()
        invariant
            keys@.len() == it.index(),
            it.seq() == map.keys().remaining(),
            forall|j: int| 0 <= j < keys@.len() ==> keys@[j] == *it.seq()[j],
    {
        keys.push(*key);
    }
    proof {
        broadcast use group_laws_cmp;

        let all = map.keys().remaining();
        assert(keys@ =~= all.unref());
        assert(keys@.to_set() == map@.dom());
        assert forall|key: u32| keys@.contains(key) <==> map@.contains_key(key) by {
            assert(keys@.to_set().contains(key) <==> keys@.contains(key));
        }
        assert(increasing_seq(all));
        lemma_increasing::<&u32>(all);
        assert forall|i: int, j: int| 0 <= i < j < keys@.len() implies keys@[i] < keys@[j] by {
            assert(precedes(all[i], all[j]));
        }
    }
    keys
}

} // verus!
