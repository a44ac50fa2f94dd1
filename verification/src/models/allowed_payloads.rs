//! Which payload types each event type allows.
use vstd::prelude::*;

verus! {

broadcast use vstd::seq_lib::group_seq_properties;

/// Whether the payload types of an event are exactly those allowed for its
/// event type: the same set, whatever the order and repetitions.
pub fn is_allowed(allowed: &[i64], requested: &[i64]) -> (r: bool)
    ensures
        r == (allowed@.to_set() == requested@.to_set()),
{
    let a = includes_all(allowed, requested);
    let b = includes_all(requested, allowed);
    proof {
        if a && b {
            assert(allowed@.to_set() =~= requested@.to_set());
        }
    }
    a && b
}

fn includes_all(big: &[i64], small: &[i64]) -> (r: bool)
    ensures
        r == small@.to_set().subset_of(big@.to_set()),
{
    let mut i: usize = 0;
    while i < small.len()
        invariant
            i <= small.len(),
            forall|k: int| 0 <= k < i ==> big@.contains(#[trigger] small@[k]),
        decreases small.len() - i,
    {
        let x = small[i];
        let mut j: usize = 0;
        let mut found = false;
        while j < big.len()
            invariant
                j <= big.len(),
                found ==> big@.contains(x),
                !found ==> forall|k: int| 0 <= k < j ==> big@[k] != x,
            decreases big.len() - j,
        {
            if big[j] == x {
                found = true;
                assert(big@[j as int] == x);
            }
            j = j + 1;
        }
        if !found {
            assert(small@.to_set().contains(x)) by {
                assert(small@[i as int] == x);
            }
            assert(!big@.to_set().contains(x));
            return false;
        }
        i = i + 1;
    }
    assert forall|x: i64| small@.to_set().contains(x) implies big@.to_set().contains(x) by {
        let k = choose|k: int| 0 <= k < small@.len() && small@[k] == x;
    }
    true
}

/// Whether the payload types of an event are allowed does not depend on which
/// of the two lists is taken as the allowed one.
pub proof fn lemma_allowed_symmetric(a: Seq<i64>, b: Seq<i64>)
    ensures
        (a.to_set() == b.to_set()) == (b.to_set() == a.to_set()),
{
}

/// Repeating a payload type or listing the types in another order does not
/// change whether they are allowed.
pub proof fn lemma_allowed_ignores_order_and_repeats(allowed: Seq<i64>, requested: Seq<i64>, other: Seq<i64>)
    requires
        forall|x: i64| requested.contains(x) <==> other.contains(x),
    ensures
        (allowed.to_set() == requested.to_set()) == (allowed.to_set() == other.to_set()),
{
    assert(requested.to_set() =~= other.to_set());
}

} // verus!
