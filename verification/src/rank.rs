//! Places in an order: how many others come before one.

use vstd::prelude::*;

verus! {

/// Whether position `i` comes before position `j`: by the key there, and among
/// equal keys by the position itself.
pub open spec fn before(keys: Seq<i64>, i: int, j: int) -> bool {
    keys[i] < keys[j] || (keys[i] == keys[j] && i < j)
}

/// How many of the first `upto` positions are members and come before `i`.
pub open spec fn members_before(keys: Seq<i64>, members: Seq<bool>, i: int, upto: int) -> int
    decreases upto,
{
    if upto <= 0 {
        0
    } else {
        members_before(keys, members, i, upto - 1) + if members[upto - 1] && before(
            keys,
            upto - 1,
            i,
        ) {
            1int
        } else {
            0
        }
    }
}

/// The place of position `i` among the members.
pub open spec fn rank(keys: Seq<i64>, members: Seq<bool>, i: int) -> int {
    members_before(keys, members, i, keys.len() as int)
}

/// How many of the first `upto` positions are members.
pub open spec fn count(members: Seq<bool>, upto: int) -> int
    decreases upto,
{
    if upto <= 0 {
        0
    } else {
        count(members, upto - 1) + if members[upto - 1] {
            1int
        } else {
            0
        }
    }
}

/// A place is less than the number of members.
pub proof fn ranks_are_few(keys: Seq<i64>, members: Seq<bool>, i: int, upto: int)
    requires
        0 <= upto <= keys.len(),
        keys.len() == members.len(),
    ensures
        0 <= members_before(keys, members, i, upto) <= count(members, upto) <= upto,
        0 <= i < upto && members[i] ==> members_before(keys, members, i, upto) < count(
            members,
            upto,
        ),
    decreases upto,
{
    if upto > 0 {
        ranks_are_few(keys, members, i, upto - 1);
    }
}

/// A member that comes before another has a lesser place.
pub proof fn ranks_follow_keys(keys: Seq<i64>, members: Seq<bool>, i: int, j: int, upto: int)
    requires
        0 <= upto <= keys.len(),
        keys.len() == members.len(),
        0 <= i < keys.len(),
        0 <= j < keys.len(),
        members[i],
        before(keys, i, j),
    ensures
        members_before(keys, members, i, upto) <= members_before(keys, members, j, upto),
        i < upto ==> members_before(keys, members, i, upto) < members_before(
            keys,
            members,
            j,
            upto,
        ),
    decreases upto,
{
    if upto > 0 {
        ranks_follow_keys(keys, members, i, j, upto - 1);
    }
}

/// The place of each position among the members.
pub fn ranks(keys: &Vec<i64>, members: &Vec<bool>) -> (ranks: Vec<usize>)
    requires
        keys@.len() == members@.len(),
    ensures
        ranks@.len() == keys@.len(),
        forall|i: int| 0 <= i < keys@.len() ==> #[trigger] ranks@[i] == rank(keys@, members@, i),
{
    let mut ranks: Vec<usize> = Vec::new();
    let mut i: usize = 0;
    while i < keys.len()
        invariant
            i <= keys@.len(),
            keys.len() == members.len(),
            ranks@.len() == i,
            forall|k: int| 0 <= k < i ==> #[trigger] ranks@[k] == rank(keys@, members@, k),
        decreases keys@.len() - i,
    {
        let mut place: usize = 0;
        let mut j: usize = 0;
        while j < keys.len()
            invariant
                i < keys@.len(),
                j <= keys.len(),
                keys.len() == members.len(),
                place <= j,
                place == members_before(keys@, members@, i as int, j as int),
            decreases keys@.len() - j,
        {
            if members[j] && (keys[j] < keys[i] || (keys[j] == keys[i] && j < i)) {
                place += 1;
            }
            j += 1;
        }
        ranks.push(place);
        i += 1;
    }
    ranks
}

/// How many members there are.
pub fn size(members: &Vec<bool>) -> (size: usize)
    ensures
        size == count(members@, members@.len() as int),
        size <= members.len(),
{
    let mut size: usize = 0;
    let mut i: usize = 0;
    while i < members.len()
        invariant
            i <= members.len(),
            size <= i,
            size == count(members@, i as int),
        decreases members@.len() - i,
    {
        if members[i] {
            size += 1;
        }
        i += 1;
    }
    size
}

/// Everyone is a member.
pub open spec fn everyone(n: nat) -> Seq<bool> {
    Seq::new(n, |i: int| true)
}

/// The position that comes first, or last.
pub proof fn an_end_is_found(keys: Seq<i64>, upto: int, last: bool) -> (at: int)
    requires
        1 <= upto <= keys.len(),
    ensures
        0 <= at < upto,
        forall|k: int|
            #![trigger keys[k]]
            0 <= k < upto && k != at ==> if last {
                before(keys, k, at)
            } else {
                before(keys, at, k)
            },
    decreases upto,
{
    if upto == 1 {
        0
    } else {
        let at = an_end_is_found(keys, upto - 1, last);
        if last == before(keys, at, upto - 1) {
            upto - 1
        } else {
            at
        }
    }
}

/// The place of the position that comes first, or last.
pub proof fn an_end_has_its_rank(keys: Seq<i64>, at: int, upto: int, last: bool)
    requires
        0 <= at < keys.len(),
        0 <= upto <= keys.len(),
        forall|k: int|
            #![trigger keys[k]]
            0 <= k < keys.len() && k != at ==> if last {
                before(keys, k, at)
            } else {
                before(keys, at, k)
            },
    ensures
        members_before(keys, everyone(keys.len()), at, upto) == if !last {
            0
        } else if at < upto {
            upto - 1
        } else {
            upto
        },
    decreases upto,
{
    if upto > 0 {
        an_end_has_its_rank(keys, at, upto - 1, last);
        assert(keys[upto - 1] == keys[upto - 1]);
        assert(upto - 1 != at ==> last == before(keys, upto - 1, at));
    }
}

/// Whether `sorted` holds `items` in the order of their keys, those with equal
/// keys in their own order.
pub open spec fn in_order<T>(keys: Seq<i64>, items: Seq<T>, sorted: Seq<T>) -> bool {
    &&& sorted.len() == items.len()
    &&& forall|i: int|
        #![trigger items[i]]
        0 <= i < items.len() ==> sorted[rank(keys, everyone(keys.len()), i)] == items[i]
}

proof fn places_are_taken_once(keys: Seq<i64>, i: int, j: int)
    requires
        0 <= i < keys.len(),
        0 <= j < keys.len(),
        i != j,
    ensures
        rank(keys, everyone(keys.len()), i) != rank(keys, everyone(keys.len()), j),
        0 <= rank(keys, everyone(keys.len()), i) < keys.len(),
{
    let all = everyone(keys.len());
    let n = keys.len() as int;
    ranks_are_few(keys, all, i, n);
    if before(keys, i, j) {
        ranks_follow_keys(keys, all, i, j, n);
    } else {
        ranks_follow_keys(keys, all, j, i, n);
    }
}

/// The position that has a given place.
pub proof fn every_place_is_taken(keys: Seq<i64>, place: int) -> (i: int)
    requires
        0 <= place < keys.len(),
    ensures
        0 <= i < keys.len(),
        rank(keys, everyone(keys.len()), i) == place,
{
    let n = keys.len() as int;
    let places = Seq::new(keys.len(), |i: int| rank(keys, everyone(keys.len()), i));
    assert(places.no_duplicates()) by {
        assert forall|i: int, j: int|
            0 <= i < places.len() && 0 <= j < places.len() && i != j implies places[i]
            != places[j] by {
            places_are_taken_once(keys, i, j);
        }
    }
    let all = vstd::set_lib::set_int_range(0, n);
    vstd::set_lib::lemma_int_range(0, n);
    places.unique_seq_to_set();
    assert(places.to_set().subset_of(all)) by {
        assert forall|r: int| places.to_set().contains(r) implies all.contains(r) by {
            let i = choose|i: int| 0 <= i < places.len() && places[i] == r;
            ranks_are_few(keys, everyone(keys.len()), i, n);
        }
    }
    vstd::set_lib::lemma_subset_equality(places.to_set(), all);
    assert(all.contains(place));
    choose|i: int| 0 <= i < places.len() && places[i] == place
}

/// Items in order are as their keys are.
pub proof fn order_follows_keys<T>(keys: Seq<i64>, items: Seq<T>, sorted: Seq<T>, a: int, b: int) -> (from: (
    int,
    int,
))
    requires
        keys.len() == items.len(),
        in_order(keys, items, sorted),
        0 <= a < b < sorted.len(),
    ensures
        0 <= from.0 < items.len(),
        0 <= from.1 < items.len(),
        sorted[a] == items[from.0],
        sorted[b] == items[from.1],
        before(keys, from.0, from.1),
{
    let i = every_place_is_taken(keys, a);
    let j = every_place_is_taken(keys, b);
    if before(keys, j, i) {
        ranks_follow_keys(keys, everyone(keys.len()), j, i, keys.len() as int);
    }
    assert(items[i] == items[i] && items[j] == items[j]);
    (i, j)
}

/// `items` in the order of their keys.
pub fn sorted_by<T: Copy>(keys: &Vec<i64>, items: &Vec<T>) -> (sorted: Vec<T>)
    requires
        keys@.len() == items@.len(),
    ensures
        in_order(keys@, items@, sorted@),
{
    let mut members: Vec<bool> = Vec::new();
    let mut sorted: Vec<T> = Vec::new();
    let mut k: usize = 0;
    while k < keys.len()
        invariant
            k <= keys@.len(),
            keys@.len() == items@.len(),
            members@ =~= everyone(k as nat),
            sorted@.len() == k,
        decreases keys@.len() - k,
    {
        members.push(true);
        sorted.push(items[k]);
        k += 1;
    }
    let places = ranks(keys, &members);
    let mut i: usize = 0;
    while i < items.len()
        invariant
            i <= items@.len(),
            keys@.len() == items@.len(),
            sorted@.len() == items@.len(),
            places@.len() == keys@.len(),
            forall|j: int|
                0 <= j < keys@.len() ==> #[trigger] places@[j] == rank(
                    keys@,
                    everyone(keys@.len()),
                    j,
                ),
            forall|j: int|
                #![trigger items@[j]]
                0 <= j < i ==> sorted@[rank(keys@, everyone(keys@.len()), j)] == items@[j],
        decreases items@.len() - i,
    {
        proof {
            ranks_are_few(keys@, everyone(keys@.len()), i as int, keys@.len() as int);
            assert forall|j: int| 0 <= j < i implies #[trigger] rank(
                keys@,
                everyone(keys@.len()),
                j,
            ) != rank(keys@, everyone(keys@.len()), i as int) && 0 <= rank(
                keys@,
                everyone(keys@.len()),
                j,
            ) < keys@.len() by {
                places_are_taken_once(keys@, j, i as int);
            }
        }
        sorted.set(places[i], items[i]);
        i += 1;
    }
    sorted
}

} // verus!
