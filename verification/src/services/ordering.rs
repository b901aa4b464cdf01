//! Stable ordering by an integer key: the order in which items are listed
//! when they are sorted, items with equal keys staying as they were.

use vstd::prelude::*;

verus! {

/// The order `order` with the item `i` put in its place: behind every item
/// whose key is not larger than its own.
pub open spec fn placed(order: Seq<int>, keys: Seq<int>, i: int) -> Seq<int>
    decreases order.len(),
{
    if order.len() == 0 {
        seq![i]
    } else if keys[order.last()] <= keys[i] {
        order.push(i)
    } else {
        placed(order.drop_last(), keys, i).push(order.last())
    }
}

/// The stable order of the first `n` items by rising key: a list of their
/// places.
pub open spec fn stable_order(keys: Seq<int>, n: int) -> Seq<int>
    decreases n,
{
    if n <= 0 {
        Seq::empty()
    } else {
        placed(stable_order(keys, n - 1), keys, n - 1)
    }
}

/// Whether `a` is listed before `b`: by key, and by place among equal keys.
pub open spec fn listed_before(keys: Seq<int>, a: int, b: int) -> bool {
    keys[a] < keys[b] || (keys[a] == keys[b] && a < b)
}

/// Whether `order` lists places below `bound`, each at most once, every
/// one before those that follow it.
pub open spec fn well_ordered(order: Seq<int>, keys: Seq<int>, bound: int) -> bool {
    &&& forall|a: int| 0 <= a < order.len() ==> 0 <= #[trigger] order[a] < bound
    &&& forall|a: int, b: int|
        0 <= a < b < order.len() ==> listed_before(keys, #[trigger] order[a], #[trigger] order[b])
}

/// The items of a list in the given order.
pub open spec fn arranged<T>(items: Seq<T>, order: Seq<int>) -> Seq<T> {
    order.map_values(|place: int| items[place])
}

/// Putting an item at the place `p` is what `placed` does, where every
/// item from `p` on has a larger key and the item before `p` has not.
pub proof fn lemma_placed_at(order: Seq<int>, keys: Seq<int>, i: int, p: int)
    requires
        0 <= p <= order.len(),
        forall|k: int| p <= k < order.len() ==> keys[#[trigger] order[k]] > keys[i],
        p > 0 ==> keys[order[p - 1]] <= keys[i],
    ensures
        placed(order, keys, i) == order.insert(p, i),
    decreases order.len(),
{
    if order.len() == 0 {
        assert(order.insert(p, i) =~= seq![i]);
    } else if p == order.len() {
        assert(order.insert(p, i) =~= order.push(i));
    } else {
        assert(keys[order[order.len() - 1]] > keys[i]);
        let shorter = order.drop_last();
        assert forall|k: int| p <= k < shorter.len() implies keys[#[trigger] shorter[k]]
            > keys[i] by {
            assert(shorter[k] == order[k]);
        }
        if p > 0 {
            assert(shorter[p - 1] == order[p - 1]);
        }
        lemma_placed_at(shorter, keys, i, p);
        assert(shorter.insert(p, i).push(order.last()) =~= order.insert(p, i));
    }
}

/// Placing the item `i` into a well ordered list of earlier items gives a
/// well ordered list that holds `i` and one item more.
pub proof fn lemma_placed_well_ordered(order: Seq<int>, keys: Seq<int>, i: int)
    requires
        well_ordered(order, keys, i),
        0 <= i,
    ensures
        well_ordered(placed(order, keys, i), keys, i + 1),
        placed(order, keys, i).len() == order.len() + 1,
        placed(order, keys, i).contains(i),
        forall|a: int| 0 <= a < order.len() ==> placed(order, keys, i).contains(#[trigger] order[a]),
        forall|a: int|
            0 <= a < placed(order, keys, i).len() ==> (#[trigger] placed(order, keys, i)[a]) == i
                || order.contains(placed(order, keys, i)[a]),
    decreases order.len(),
{
    let result = placed(order, keys, i);
    if order.len() == 0 {
        assert(result[0] == i);
    } else if keys[order.last()] <= keys[i] {
        assert(result[order.len() as int] == i);
        assert forall|a: int, b: int| 0 <= a < b < result.len() implies listed_before(
            keys,
            #[trigger] result[a],
            #[trigger] result[b],
        ) by {
            if b == order.len() {
                if a < order.len() - 1 {
                    assert(listed_before(keys, order[a], order[order.len() - 1]));
                }
                assert(order[a] < i);
            }
        }
        assert forall|a: int| 0 <= a < order.len() implies result.contains(
            #[trigger] order[a],
        ) by {
            assert(result[a] == order[a]);
        }
        assert forall|a: int| 0 <= a < result.len() implies (#[trigger] result[a]) == i
            || order.contains(result[a]) by {
            if a < order.len() {
                assert(order[a] == result[a]);
            }
        }
    } else {
        let shorter = order.drop_last();
        let last = order.last();
        assert(well_ordered(shorter, keys, i)) by {
            assert forall|a: int| 0 <= a < shorter.len() implies 0 <= #[trigger] shorter[a]
                < i by {
                assert(shorter[a] == order[a]);
            }
            assert forall|a: int, b: int| 0 <= a < b < shorter.len() implies listed_before(
                keys,
                #[trigger] shorter[a],
                #[trigger] shorter[b],
            ) by {
                assert(shorter[a] == order[a] && shorter[b] == order[b]);
            }
        }
        lemma_placed_well_ordered(shorter, keys, i);
        let inner = placed(shorter, keys, i);
        assert(result == inner.push(last));
        assert forall|a: int| 0 <= a < result.len() implies 0 <= #[trigger] result[a] < i
            + 1 by {
            if a < inner.len() {
                assert(result[a] == inner[a]);
            } else {
                assert(result[a] == order[order.len() - 1]);
            }
        }
        assert forall|a: int, b: int| 0 <= a < b < result.len() implies listed_before(
            keys,
            #[trigger] result[a],
            #[trigger] result[b],
        ) by {
            if b < inner.len() {
                assert(result[a] == inner[a] && result[b] == inner[b]);
            } else {
                assert(result[b] == last);
                assert(result[a] == inner[a]);
                if inner[a] == i {
                } else {
                    assert(shorter.contains(inner[a]));
                    let m = choose|m: int| 0 <= m < shorter.len() && shorter[m] == inner[a];
                    assert(order[m] == inner[a]);
                    assert(listed_before(keys, order[m], order[order.len() - 1]));
                }
            }
        }
        assert(result[inner.index_of(i)] == i) by {
            assert(inner[inner.index_of(i)] == i);
        }
        assert forall|a: int| 0 <= a < order.len() implies result.contains(
            #[trigger] order[a],
        ) by {
            if a < shorter.len() {
                assert(shorter[a] == order[a]);
                assert(inner.contains(shorter[a]));
                let m = choose|m: int| 0 <= m < inner.len() && inner[m] == shorter[a];
                assert(result[m] == order[a]);
            } else {
                assert(result[inner.len() as int] == order[a]);
            }
        }
        assert forall|a: int| 0 <= a < result.len() implies (#[trigger] result[a]) == i
            || order.contains(result[a]) by {
            if a < inner.len() {
                assert(result[a] == inner[a]);
                if inner[a] != i {
                    assert(shorter.contains(inner[a]));
                    let m = choose|m: int| 0 <= m < shorter.len() && shorter[m] == inner[a];
                    assert(order[m] == inner[a]);
                }
            } else {
                assert(order[order.len() - 1] == result[a]);
            }
        }
    }
}

/// The stable order of `n` items lists each of their places exactly once,
/// by rising key, and items with equal keys in the order in which they
/// stood.
pub proof fn lemma_stable_order(keys: Seq<int>, n: int)
    requires
        0 <= n,
    ensures
        stable_order(keys, n).len() == n,
        well_ordered(stable_order(keys, n), keys, n),
        forall|i: int| 0 <= i < n ==> stable_order(keys, n).contains(i),
    decreases n,
{
    if n > 0 {
        lemma_stable_order(keys, n - 1);
        let earlier = stable_order(keys, n - 1);
        lemma_placed_well_ordered(earlier, keys, n - 1);
        assert forall|i: int| 0 <= i < n implies stable_order(keys, n).contains(i) by {
            if i < n - 1 {
                assert(earlier.contains(i));
                let m = choose|m: int| 0 <= m < earlier.len() && earlier[m] == i;
                assert(stable_order(keys, n).contains(earlier[m]));
            }
        }
    }
}

/// Keys as mathematical integers.
pub open spec fn widened(keys: Seq<i128>) -> Seq<int> {
    keys.map_values(|k: i128| k as int)
}

/// Places as mathematical integers.
pub open spec fn places(order: Seq<usize>) -> Seq<int> {
    order.map_values(|p: usize| p as int)
}

/// The places of the items in their stable order by rising key.
pub fn order_by_key(keys: &Vec<i128>) -> (order: Vec<usize>)
    ensures
        places(order@) == stable_order(widened(keys@), keys@.len() as int),
        order@.len() == keys@.len(),
        forall|a: int| 0 <= a < order@.len() ==> #[trigger] order@[a] < keys@.len(),
{
    let ghost wide = widened(keys@);
    let mut order: Vec<usize> = Vec::new();
    let mut i: usize = 0;
    assert(places(order@) =~= stable_order(wide, 0));
    while i < keys.len()
        invariant
            0 <= i <= keys.len(),
            wide == widened(keys@),
            order@.len() == i,
            places(order@) == stable_order(wide, i as int),
            forall|a: int| 0 <= a < order@.len() ==> #[trigger] order@[a] < i,
        decreases keys.len() - i,
    {
        let ghost before = places(order@);
        let mut p: usize = order.len();
        while p > 0 && keys[order[p - 1]] > keys[i]
            invariant
                0 <= p <= order.len(),
                i < keys.len(),
                order@.len() == i,
                wide == widened(keys@),
                before == places(order@),
                forall|a: int| 0 <= a < order@.len() ==> #[trigger] order@[a] < i,
                forall|k: int| p <= k < before.len() ==> wide[#[trigger] before[k]] > wide[i as int],
            decreases p,
        {
            assert(before[p - 1] == order@[p - 1] as int);
            p -= 1;
        }
        proof {
            if p > 0 {
                assert(before[p - 1] == order@[p - 1] as int);
                assert(wide[before[p - 1]] <= wide[i as int]);
            }
            lemma_placed_at(before, wide, i as int, p as int);
        }
        order.insert(p, i);
        assert(places(order@) =~= before.insert(p as int, i as int));
        i += 1;
    }
    order
}

} // verus!
