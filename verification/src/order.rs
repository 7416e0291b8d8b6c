//! The ascending order of a list of instants: which position comes first,
//! which second, and so on. Equal instants keep the order they had.

use vstd::prelude::*;
use vstd::set_lib::{lemma_int_range, lemma_len_subset, lemma_subset_equality, set_int_range};

verus! {

/// Whether position `a` comes before position `b`: its instant is earlier,
/// or the instants are equal and `a` is the lower position.
pub open spec fn comes_before(keys: Seq<i64>, a: int, b: int) -> bool {
    keys[a] < keys[b] || (keys[a] == keys[b] && a < b)
}

/// Whether `order` lists every position of `keys` once, each before the next.
pub open spec fn is_ascending_order(order: Seq<usize>, keys: Seq<i64>) -> bool {
    &&& order.len() == keys.len()
    &&& forall|i: int| 0 <= i < order.len() ==> (#[trigger] order[i]) < keys.len()
    &&& forall|i: int, j: int|
        0 <= i < j < order.len() ==> comes_before(keys, #[trigger] order[i] as int, #[trigger] order[j] as int)
}

/// The ascending order of `keys`.
pub open spec fn ascending(keys: Seq<i64>) -> Seq<usize> {
    choose|order: Seq<usize>| is_ascending_order(order, keys)
}

/// Whether the instants ascend as they stand.
pub open spec fn is_ascending(keys: Seq<i64>) -> bool {
    forall|i: int, j: int| 0 <= i < j < keys.len() ==> keys[i] <= keys[j]
}

/// The instants of `keys`, taken in the given order.
pub open spec fn arranged(keys: Seq<i64>, order: Seq<usize>) -> Seq<i64> {
    Seq::new(order.len(), |i: int| keys[order[i] as int])
}

/// An ascending order names every position.
proof fn lemma_order_covers(order: Seq<usize>, keys: Seq<i64>, k: int)
    requires
        is_ascending_order(order, keys),
        0 <= k < keys.len(),
    ensures
        exists|i: int| 0 <= i < order.len() && order[i] == k,
{
    let n: int = keys.len() as int;
    let named: Seq<int> = Seq::new(order.len(), |i: int| order[i] as int);
    assert(named.no_duplicates()) by {
        assert forall|i: int, j: int| 0 <= i < named.len() && 0 <= j < named.len() && i != j implies named[i]
            != named[j] by {
            if i < j {
                assert(comes_before(keys, order[i] as int, order[j] as int));
            } else {
                assert(comes_before(keys, order[j] as int, order[i] as int));
            }
        }
    }
    named.unique_seq_to_set();
    lemma_int_range(0, n);
    assert(named.to_set().subset_of(set_int_range(0, n))) by {
        assert forall|x: int| named.to_set().contains(x) implies set_int_range(0, n).contains(x) by {
            let i: int = choose|i: int| 0 <= i < named.len() && named[i] == x;
            assert(order[i] < keys.len());
        }
    }
    lemma_len_subset(named.to_set(), set_int_range(0, n));
    lemma_subset_equality(named.to_set(), set_int_range(0, n));
    assert(set_int_range(0, n).contains(k));
    assert(named.to_set().contains(k));
    let i: int = choose|i: int| 0 <= i < named.len() && named[i] == k;
    assert(order[i] == k);
}

/// A list of instants has one ascending order only.
pub proof fn lemma_ascending_order_unique(first: Seq<usize>, second: Seq<usize>, keys: Seq<i64>)
    requires
        is_ascending_order(first, keys),
        is_ascending_order(second, keys),
    ensures
        first == second,
{
    assert forall|i: int| 0 <= i < first.len() implies first[i] == second[i] by {
        lemma_agree_up_to(first, second, keys, i);
    }
    assert(first =~= second);
}

proof fn lemma_agree_up_to(first: Seq<usize>, second: Seq<usize>, keys: Seq<i64>, i: int)
    requires
        is_ascending_order(first, keys),
        is_ascending_order(second, keys),
        0 <= i < first.len(),
    ensures
        first[i] == second[i],
    decreases i,
{
    assert forall|j: int| 0 <= j < i implies first[j] == second[j] by {
        lemma_agree_up_to(first, second, keys, j);
    }
    if first[i] != second[i] {
        assert(first[i] < keys.len());
        assert(second[i] < keys.len());
        if comes_before(keys, first[i] as int, second[i] as int) {
            lemma_order_covers(second, keys, first[i] as int);
            let j: int = choose|j: int| 0 <= j < second.len() && second[j] == first[i];
            if j < i {
                assert(comes_before(keys, first[j] as int, first[i] as int));
            } else {
                assert(comes_before(keys, second[i] as int, second[j] as int));
            }
        } else {
            lemma_order_covers(first, keys, second[i] as int);
            let j: int = choose|j: int| 0 <= j < first.len() && first[j] == second[i];
            if j < i {
                assert(comes_before(keys, second[j] as int, second[i] as int));
            } else {
                assert(comes_before(keys, first[i] as int, first[j] as int));
            }
        }
    }
}

/// Every list of instants has an ascending order.
pub proof fn lemma_ascending_exists(keys: Seq<i64>)
    requires
        keys.len() <= usize::MAX,
    ensures
        is_ascending_order(ascending(keys), keys),
    decreases keys.len(),
{
    if keys.len() == 0 {
        assert(is_ascending_order(Seq::<usize>::empty(), keys));
    } else {
        let front: Seq<i64> = keys.drop_last();
        lemma_ascending_exists(front);
        let base: Seq<usize> = ascending(front);
        let k: usize = (keys.len() - 1) as usize;
        assert(k == keys.len() - 1);
        assert(keys[k as int] == keys.last());
        let p: int = first_later(base, keys, keys.last(), 0);
        lemma_first_later(base, keys, keys.last(), 0);
        let grown: Seq<usize> = base.insert(p, k);
        assert forall|i: int| 0 <= i < grown.len() implies (#[trigger] grown[i]) < keys.len() by {
            if i < p {
                assert(grown[i] == base[i]);
            } else if i > p {
                assert(grown[i] == base[i - 1]);
            }
        }
        assert forall|i: int, j: int| 0 <= i < j < grown.len() implies comes_before(
            keys,
            #[trigger] grown[i] as int,
            #[trigger] grown[j] as int,
        ) by {
            if j < p {
                assert(grown[i] == base[i] && grown[j] == base[j]);
                assert(comes_before(front, base[i] as int, base[j] as int));
            } else if j == p {
                assert(grown[i] == base[i]);
                assert(base[i] < front.len());
            } else if i < p {
                assert(grown[i] == base[i] && grown[j] == base[j - 1]);
                assert(comes_before(front, base[i] as int, base[j - 1] as int));
            } else if i == p {
                assert(grown[j] == base[j - 1]);
                assert(base[j - 1] < front.len());
            } else {
                assert(grown[i] == base[i - 1] && grown[j] == base[j - 1]);
                assert(comes_before(front, base[i - 1] as int, base[j - 1] as int));
            }
        }
        assert(is_ascending_order(grown, keys));
    }
}

/// The first place at or after `from` whose instant is later than `key`, in
/// an order of the positions before the last.
spec fn first_later(order: Seq<usize>, keys: Seq<i64>, key: i64, from: int) -> int
    decreases order.len() - from,
{
    if from < 0 || from >= order.len() {
        order.len() as int
    } else if keys[order[from] as int] > key {
        from
    } else {
        first_later(order, keys, key, from + 1)
    }
}

proof fn lemma_first_later(order: Seq<usize>, keys: Seq<i64>, key: i64, from: int)
    requires
        0 <= from <= order.len(),
        is_ascending_order(order, keys.drop_last()),
        keys.len() > 0,
    ensures
        from <= first_later(order, keys, key, from) <= order.len(),
        forall|i: int| from <= i < first_later(order, keys, key, from) ==> keys[(#[trigger] order[i]) as int] <= key,
        forall|i: int|
            first_later(order, keys, key, from) <= i < order.len() ==> keys[(#[trigger] order[i]) as int] > key,
    decreases order.len() - from,
{
    if from < order.len() {
        if keys[order[from] as int] > key {
            assert forall|i: int| from <= i < order.len() implies keys[(#[trigger] order[i]) as int] > key by {
                if i > from {
                    assert(comes_before(keys.drop_last(), order[from] as int, order[i] as int));
                    assert(order[from] < keys.drop_last().len());
                    assert(order[i] < keys.drop_last().len());
                }
            }
        } else {
            lemma_first_later(order, keys, key, from + 1);
        }
    }
}

/// Instants taken in their ascending order ascend.
pub proof fn lemma_arranged_ascends(keys: Seq<i64>, order: Seq<usize>)
    requires
        is_ascending_order(order, keys),
    ensures
        is_ascending(arranged(keys, order)),
{
    assert forall|i: int, j: int| 0 <= i < j < arranged(keys, order).len() implies arranged(
        keys,
        order,
    )[i] <= arranged(keys, order)[j] by {
        assert(comes_before(keys, order[i] as int, order[j] as int));
    }
}

/// The ascending order of `keys`, found by insertion.
pub fn ascending_order(keys: &Vec<i64>) -> (order: Vec<usize>)
    ensures
        is_ascending_order(order@, keys@),
        order@ == ascending(keys@),
{
    let mut order: Vec<usize> = Vec::new();
    let mut k: usize = 0;
    while k < keys.len()
        invariant
            k <= keys.len(),
            order.len() == k,
            forall|i: int| 0 <= i < order.len() ==> (#[trigger] order[i]) < k,
            forall|i: int, j: int|
                0 <= i < j < order.len() ==> comes_before(
                    keys@,
                    #[trigger] order[i] as int,
                    #[trigger] order[j] as int,
                ),
        decreases keys.len() - k,
    {
        let key: i64 = keys[k];
        let mut p: usize = order.len();
        while p > 0 && keys[order[p - 1]] > key
            invariant
                p <= order.len(),
                order.len() == k,
                k < keys.len(),
                key == keys[k as int],
                forall|i: int| 0 <= i < order.len() ==> (#[trigger] order[i]) < k,
                forall|i: int| p <= i < order.len() ==> keys[(#[trigger] order[i]) as int] > key,
            decreases p,
        {
            p = p - 1;
        }
        let ghost before: Seq<usize> = order@;
        order.insert(p, k);
        proof {
            assert forall|i: int, j: int| 0 <= i < j < order.len() implies comes_before(
                keys@,
                #[trigger] order[i] as int,
                #[trigger] order[j] as int,
            ) by {
                if j < p {
                    assert(order[i] == before[i] && order[j] == before[j]);
                } else if j == p {
                    assert(order[i] == before[i]);
                    if i < p - 1 {
                        assert(comes_before(keys@, before[i] as int, before[p - 1] as int));
                    }
                    assert(keys[before[p - 1] as int] <= key);
                } else if i < p {
                    assert(order[i] == before[i] && order[j] == before[j - 1]);
                } else if i == p {
                    assert(order[j] == before[j - 1]);
                } else {
                    assert(order[i] == before[i - 1] && order[j] == before[j - 1]);
                }
            }
            assert forall|i: int| 0 <= i < order.len() implies (#[trigger] order[i]) < k + 1 by {
                if i < p {
                    assert(order[i] == before[i]);
                } else if i > p {
                    assert(order[i] == before[i - 1]);
                }
            }
        }
        k = k + 1;
    }
    proof {
        let chosen: Seq<usize> = ascending(keys@);
        assert(is_ascending_order(order@, keys@));
        lemma_ascending_order_unique(order@, chosen, keys@);
    }
    order
}

} // verus!
