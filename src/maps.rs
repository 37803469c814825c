//! Building a hash map from a list of entries.
use vstd::prelude::*;
use std::collections::HashMap;
use std::hash::Hash;

verus! {

/// The map that inserting `entries` in order into an empty map gives: a
/// later entry replaces an earlier one with the same key.
pub open spec fn map_of<K, V>(entries: Seq<(K, V)>) -> Map<K, V>
    decreases entries.len(),
{
    if entries.len() == 0 {
        Map::empty()
    } else {
        map_of(entries.drop_last()).insert(entries.last().0, entries.last().1)
    }
}

/// A hash map holding `entries`, inserted in order.
pub fn hashmap<K: Eq + Hash, V>(entries: Vec<(K, V)>) -> (m: HashMap<K, V>)
    ensures
        vstd::std_specs::hash::obeys_key_model::<K>() ==> m@ == map_of(entries@),
{
    broadcast use vstd::std_specs::hash::group_hash_axioms;

    let total = entries.len();
    let ghost all = entries@;
    let mut rest = entries;
    let mut m: HashMap<K, V> = HashMap::new();
    let mut done: usize = 0;
    while rest.len() > 0
        invariant
            all.len() == total,
            done <= all.len(),
            rest@.len() == all.len() - done,
            rest@ == all.subrange(done as int, all.len() as int),
            vstd::std_specs::hash::obeys_key_model::<K>() ==> m@ == map_of(
                all.subrange(0, done as int),
            ),
        decreases rest@.len(),
    {
        let (k, v) = rest.remove(0);
        proof {
            assert(all.subrange(0, done + 1).drop_last() =~= all.subrange(0, done as int));
        }
        m.insert(k, v);
        done = done + 1;
    }
    proof {
        assert(all.subrange(0, done as int) =~= all);
    }
    m
}

} // verus!
