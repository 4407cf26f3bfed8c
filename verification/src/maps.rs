//! Helpers on maps keyed by numbers.

use std::collections::HashMap;
use vstd::prelude::*;

verus! {

broadcast use vstd::std_specs::hash::group_hash_axioms;

/// The keys of the map, in no particular order.
pub fn keys_of<V>(m: &HashMap<u64, V>) -> (keys: Vec<u64>)
    ensures
        forall|k: u64| #![auto] m@.contains_key(k) <==> keys@.contains(k),
{
    let mut keys: Vec<u64> = Vec::new();
    for k in it: m.keys()
        invariant
            it.seq().unref().to_set() == m@.dom(),
            keys@ == it.seq().unref().take(it.index() as int),
            it.index() == it.seq().len() ==> keys@.to_set() == m@.dom(),
    {
        keys.push(*k);
        proof {
            let s = it.seq().unref();
            assert(s.take(it.index() + 1) =~= s.take(it.index() as int).push(s[it.index() as int]));
            assert(s.take(s.len() as int) =~= s);
        }
    }
    proof {
        assert forall|k: u64| #![auto] m@.contains_key(k) <==> keys@.contains(k) by {
            assert(m@.dom().contains(k) <==> keys@.to_set().contains(k));
        }
    }
    keys
}

/// The members of a sequence with one more element.
pub proof fn lemma_push_set(s: Seq<u64>, x: u64)
    ensures
        s.push(x).to_set() == s.to_set().insert(x),
        forall|y: u64| #[trigger] s.push(x).contains(y) <==> s.contains(y) || y == x,
{
    broadcast use vstd::seq_lib::group_seq_properties;

    assert forall|y: u64| #[trigger] s.push(x).contains(y) <==> s.contains(y) || y == x by {
        if y == x {
            assert(s.push(x)[s.len() as int] == x);
        }
        if s.contains(y) {
            let j = choose|j: int| 0 <= j < s.len() && s[j] == y;
            assert(s.push(x)[j] == y);
        }
    }
    assert(s.push(x).to_set() =~= s.to_set().insert(x));
}

} // verus!
