//! Stable sorting by text keys.

use crate::text::{text_le, text_not_after, text_order_total, text_order_transitive};
use vstd::prelude::*;

verus! {

/// Whether `order` lists every position of `keys` once, in text order of the
/// keys there, and positions with equal keys in their own order.
pub open spec fn stable_order(keys: Seq<Seq<char>>, order: Seq<usize>) -> bool {
    &&& order.len() == keys.len()
    &&& forall|i: int| 0 <= i < order.len() ==> (#[trigger] order[i]) < keys.len()
    &&& forall|i: int, j: int|
        #![trigger order[i], order[j]]
        0 <= i < j < order.len() ==> order[i] != order[j] && text_le(
            keys[order[i] as int],
            keys[order[j] as int],
        ) && (keys[order[i] as int] == keys[order[j] as int] ==> order[i] < order[j])
}

/// The characters of each text.
pub open spec fn texts(keys: Seq<String>) -> Seq<Seq<char>> {
    keys.map_values(|key: String| key@)
}

/// The positions of `keys` in stable text order.
pub fn sorted_positions(keys: &Vec<String>) -> (order: Vec<usize>)
    ensures
        stable_order(texts(keys@), order@),
{
    let mut order: Vec<usize> = Vec::new();
    let mut next: usize = 0;
    while next < keys.len()
        invariant
            next <= keys@.len(),
            stable_order(texts(keys@).take(next as int), order@),
        decreases keys@.len() - next,
    {
        let mut at: usize = order.len();
        let ghost all = texts(keys@);
        while at > 0 && !text_not_after(keys[order[at - 1]].as_str(), keys[next].as_str())
            invariant
                all == texts(keys@),
                next < keys@.len(),
                at <= order@.len(),
                stable_order(all.take(next as int), order@),
                forall|j: int|
                    #![trigger order@[j]]
                    at <= j < order@.len() ==> !text_le(all[order@[j] as int], all[next as int]),
            decreases at,
        {
            at -= 1;
        }
        let ghost before = order@;
        order.insert(at, next);
        proof {
            inserted_in_order(all, next as int, before, at as int);
        }
        next += 1;
    }
    assert(texts(keys@).take(keys@.len() as int) =~= texts(keys@));
    order
}

proof fn inserted_in_order(keys: Seq<Seq<char>>, next: int, before: Seq<usize>, at: int)
    requires
        0 <= next < keys.len(),
        next <= usize::MAX,
        stable_order(keys.take(next), before),
        0 <= at <= before.len(),
        at > 0 ==> text_le(keys[before[at - 1] as int], keys[next]),
        forall|j: int|
            #![trigger before[j]]
            at <= j < before.len() ==> !text_le(keys[before[j] as int], keys[next]),
    ensures
        stable_order(keys.take(next + 1), before.insert(at, next as usize)),
{
    let after = before.insert(at, next as usize);
    let shorter = keys.take(next);
    let longer = keys.take(next + 1);
    assert forall|i: int| 0 <= i < after.len() implies (#[trigger] after[i]) < longer.len() by {
        if i != at {
            let from = if i < at {
                i
            } else {
                i - 1
            };
            assert(after[i] == before[from]);
        }
    }
    assert forall|i: int, j: int|
        #![trigger after[i], after[j]]
        0 <= i < j < after.len() implies after[i] != after[j] && text_le(
        longer[after[i] as int],
        longer[after[j] as int],
    ) && (longer[after[i] as int] == longer[after[j] as int] ==> after[i] < after[j]) by {
        let a = if i < at {
            i
        } else {
            i - 1
        };
        let b = if j < at {
            j
        } else {
            j - 1
        };
        if i == at {
            assert(after[j] == before[b]);
            assert(before[b] < shorter.len());
            text_order_total(keys[before[b] as int], keys[next]);
        } else if j == at {
            assert(after[i] == before[a]);
            assert(before[a] < shorter.len());
            if a < at - 1 {
                assert(before[at - 1] < shorter.len());
                text_order_transitive(
                    keys[before[a] as int],
                    keys[before[at - 1] as int],
                    keys[next],
                );
            }
        } else {
            assert(after[i] == before[a] && after[j] == before[b]);
            assert(before[a] < shorter.len() && before[b] < shorter.len());
        }
    }
}

/// Two stable orders of the same keys are the same.
pub proof fn stable_order_is_unique(keys: Seq<Seq<char>>, a: Seq<usize>, b: Seq<usize>)
    requires
        stable_order(keys, a),
        stable_order(keys, b),
    ensures
        a == b,
{
    agree_from(keys, a, b, 0);
}

proof fn agree_from(keys: Seq<Seq<char>>, a: Seq<usize>, b: Seq<usize>, from: int)
    requires
        stable_order(keys, a),
        stable_order(keys, b),
        0 <= from <= a.len(),
        forall|i: int| 0 <= i < from ==> a[i] == b[i],
    ensures
        a == b,
    decreases a.len() - from,
{
    if from == a.len() {
        assert(a =~= b);
    } else if a[from] == b[from] {
        agree_from(keys, a, b, from + 1);
    } else {
        let p = found_later(keys, a, b, from);
        let q = found_later(keys, b, a, from);
        crate::text::text_order_antisymmetric_if(
            keys[a[from] as int],
            keys[b[from] as int],
        );
        assert(a[from] != a[q]);
        assert(b[from] != b[p]);
    }
}

/// The position at which an order lists `position`.
pub proof fn position_listed(keys: Seq<Seq<char>>, order: Seq<usize>, position: int) -> (at: int)
    requires
        stable_order(keys, order),
        0 <= position < keys.len(),
    ensures
        0 <= at < order.len(),
        order[at] == position,
{
    let listed = order.map_values(|i: usize| i as int);
    assert(listed.no_duplicates());
    let all = Set::new(|i: int| 0 <= i < keys.len());
    vstd::set_lib::lemma_int_range(0, keys.len() as int);
    assert(all =~= vstd::set_lib::set_int_range(0, keys.len() as int));
    listed.unique_seq_to_set();
    assert(listed.to_set().subset_of(all)) by {
        assert forall|i: int| listed.to_set().contains(i) implies all.contains(i) by {
            let j = choose|j: int| 0 <= j < listed.len() && listed[j] == i;
            assert(order[j] < keys.len());
        }
    }
    vstd::set_lib::lemma_subset_equality(listed.to_set(), all);
    assert(all.contains(position));
    choose|j: int| 0 <= j < listed.len() && listed[j] == position
}

proof fn found_later(keys: Seq<Seq<char>>, a: Seq<usize>, b: Seq<usize>, from: int) -> (at: int)
    requires
        stable_order(keys, a),
        stable_order(keys, b),
        0 <= from < a.len(),
        forall|i: int| 0 <= i < from ==> a[i] == b[i],
        a[from] != b[from],
    ensures
        from < at < b.len(),
        b[at] == a[from],
{
    let at = position_listed(keys, b, a[from] as int);
    if at < from {
        assert(a[at] != a[from]);
    }
    at
}

} // verus!
