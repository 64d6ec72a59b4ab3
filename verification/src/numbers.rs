//! Walking numbered collections in ascending order.
use std::collections::BTreeMap;
use vstd::prelude::*;
use vstd::std_specs::cmp::OrdSpec;
use vstd::std_specs::iter::IteratorSpec;

verus! {

/// Whether a sequence holds the numbers of a set in ascending order.
pub open spec fn ascends(numbers: Seq<u32>, all: Set<u32>) -> bool {
    &&& forall|i: int, j: int| 0 <= i < j < numbers.len() ==> numbers[i] < numbers[j]
    &&& forall|i: int| 0 <= i < numbers.len() ==> all.contains(#[trigger] numbers[i])
    &&& forall|number: u32| #[trigger] all.contains(number) ==> numbers.contains(number)
}

/// Returns the numbers of a collection in ascending order.
pub fn numbers<T>(collection: &BTreeMap<u32, T>) -> (numbers: Vec<u32>)
    ensures
        ascends(numbers@, collection@.dom()),
        numbers@.len() == collection@.dom().len(),
{
    broadcast use vstd::std_specs::btree::group_btree_axioms;
    broadcast use vstd::laws_cmp::group_laws_cmp;

    let mut numbers: Vec<u32> = Vec::new();
    let ghost all = collection.iter().remaining();
    let ghost keys = all.map_values(|pair: (&u32, &T)| *pair.0);
    assert forall|number: u32| #[trigger]
        collection@.dom().contains(number) implies keys.contains(number) by {
        assert(collection@.contains_key(number));
        let place = choose|place: int|
            0 <= place < all.len() && all[place] == (&number, &collection@[number]);
        assert(all.contains((&number, &collection@[number])));
        assert(keys[place] == number);
    }
    for pair in pairs: collection.iter()
        invariant
            pairs.seq() == all,
            keys == all.map_values(|pair: (&u32, &T)| *pair.0),
            numbers@ == keys.subrange(0, pairs.index()),
    {
        numbers.push(*pair.0);
        assert(numbers@ =~= keys.subrange(0, pairs.index() + 1));
    }
    assert(numbers@ =~= keys);
    assert(vstd::std_specs::btree::increasing_seq(keys));
    assert forall|i: int, j: int| 0 <= i < j < keys.len() implies keys[i] < keys[j] by {
        assert(keys[i].cmp_spec(&keys[j]) is Less);
    }
    assert forall|i: int| 0 <= i < keys.len() implies collection@.dom().contains(
        #[trigger] keys[i],
    ) by {
        assert(collection@.contains_key(*all[i].0));
    }
    numbers
}

/// What is kept below a number, in ascending order.
pub open spec fn listing<T>(all: Map<u32, T>, bound: nat) -> Seq<T>
    decreases bound,
{
    if bound == 0 {
        Seq::empty()
    } else {
        let number = (bound - 1) as u32;
        let before = listing(all, (bound - 1) as nat);
        if all.contains_key(number) {
            before.push(all[number])
        } else {
            before
        }
    }
}

/// Numbers under which nothing is kept add nothing to a listing.
pub proof fn gaps_hold_nothing<T>(all: Map<u32, T>, from: nat, to: nat)
    requires
        from <= to <= 0x1_0000_0000,
        forall|number: u32| from <= number < to ==> !all.contains_key(number),
    ensures
        listing(all, from) == listing(all, to),
    decreases to - from,
{
    if from < to {
        gaps_hold_nothing(all, from, (to - 1) as nat);
    }
}

} // verus!
