//! Stable descending order.

use vstd::prelude::*;

verus! {

/// Position `a` comes before position `b` where the greater key comes first and equal keys keep
/// their order.
pub open spec fn ranks_before(keys: Seq<int>, a: int, b: int) -> bool {
    keys[a] > keys[b] || (keys[a] == keys[b] && a < b)
}

/// `order` lists every position of `keys` once, the greatest key first, equal keys in the order
/// in which they stood.
pub open spec fn is_descending_order(keys: Seq<int>, order: Seq<int>) -> bool {
    &&& order.len() == keys.len()
    &&& forall|i: int| 0 <= i < order.len() ==> 0 <= #[trigger] order[i] < keys.len()
    &&& forall|i: int, j: int|
        0 <= i < j < order.len() ==> ranks_before(keys, #[trigger] order[i], #[trigger] order[j])
}

/// The positions as mathematical integers.
pub open spec fn positions(v: Seq<usize>) -> Seq<int> {
    v.map_values(|p: usize| p as int)
}

/// The keys as mathematical integers.
pub open spec fn ints(v: Seq<i128>) -> Seq<int> {
    v.map_values(|k: i128| k as int)
}

/// Lists the positions of `keys` in stable descending order.
pub fn descending_order(keys: &Vec<i128>) -> (r: Vec<usize>)
    ensures
        is_descending_order(ints(keys@), positions(r@)),
        r@.len() == keys@.len(),
        forall|i: int| 0 <= i < r@.len() ==> (#[trigger] r@[i]) < keys@.len(),
{
    let mut order: Vec<usize> = Vec::new();
    let mut k: usize = 0;
    while k < keys.len()
        invariant
            k <= keys@.len(),
            order@.len() == k,
            forall|i: int| 0 <= i < k ==> 0 <= #[trigger] order@[i] < k,
            forall|i: int, j: int|
                0 <= i < j < k ==> ranks_before(
                    ints(keys@),
                    #[trigger] order@[i] as int,
                    #[trigger] order@[j] as int,
                ),
        decreases keys@.len() - k,
    {
        let mut at: usize = k;
        while at > 0 && keys[order[at - 1]] < keys[k]
            invariant
                at <= k,
                k < keys@.len(),
                order@.len() == k,
                forall|i: int| 0 <= i < k ==> 0 <= #[trigger] order@[i] < k,
                forall|i: int| at <= i < k ==> keys@[(#[trigger] order@[i]) as int] < keys@[k as int],
            decreases at,
        {
            at -= 1;
        }
        let ghost before = order@;
        order.insert(at, k);
        proof {
            let all = ints(keys@);
            assert forall|i: int| 0 <= i < at implies ranks_before(all, #[trigger] before[i] as int, k as int) by {
                let last = at - 1;
                assert(keys@[before[last] as int] >= keys@[k as int]);
                if i < last {
                    assert(ranks_before(all, before[i] as int, before[last] as int));
                }
            }
            assert forall|i: int, j: int| 0 <= i < j < k + 1 implies ranks_before(
                all,
                #[trigger] order@[i] as int,
                #[trigger] order@[j] as int,
            ) by {
                let oi = if i < at { i } else { i - 1 };
                let oj = if j < at { j } else { j - 1 };
                if i == at {
                    assert(order@[i] == k);
                    assert(order@[j] == before[j - 1]);
                } else if j == at {
                    assert(order@[j] == k);
                    assert(order@[i] == before[i]);
                } else {
                    assert(order@[i] == before[oi]);
                    assert(order@[j] == before[oj]);
                }
            }
            assert forall|i: int| 0 <= i < k + 1 implies 0 <= #[trigger] order@[i] < k + 1 by {
                if i < at {
                    assert(order@[i] == before[i]);
                } else if i > at {
                    assert(order@[i] == before[i - 1]);
                }
            }
        }
        k += 1;
    }
    order
}

// ---------------------------------------------------------------------------------------------
// Laws
// ---------------------------------------------------------------------------------------------

/// A descending order lists no position twice.
pub proof fn law_order_repeats_nothing(keys: Seq<int>, order: Seq<int>)
    requires
        is_descending_order(keys, order),
    ensures
        order.no_duplicates(),
{
    assert forall|i: int, j: int| 0 <= i < order.len() && 0 <= j < order.len() && i != j implies order[i]
        != order[j] by {
        if i < j {
            assert(ranks_before(keys, order[i], order[j]));
        } else {
            assert(ranks_before(keys, order[j], order[i]));
        }
    }
}

proof fn lemma_covers(order: Seq<int>, n: int, x: int)
    requires
        order.len() == n,
        order.no_duplicates(),
        forall|i: int| 0 <= i < n ==> 0 <= #[trigger] order[i] < n,
        0 <= x < n,
    ensures
        order.contains(x),
{
    let all = vstd::set_lib::set_int_range(0, n);
    vstd::set_lib::lemma_int_range(0, n);
    order.unique_seq_to_set();
    assert(order.to_set().subset_of(all));
    vstd::set_lib::lemma_subset_equality(order.to_set(), all);
    assert(all.contains(x));
}

/// A descending order lists every position.
pub proof fn law_order_misses_nothing(keys: Seq<int>, order: Seq<int>, x: int)
    requires
        is_descending_order(keys, order),
        0 <= x < keys.len(),
    ensures
        order.contains(x),
{
    law_order_repeats_nothing(keys, order);
    lemma_covers(order, keys.len() as int, x);
}

/// The keys have exactly one descending order.
pub proof fn law_order_is_unique(keys: Seq<int>, a: Seq<int>, b: Seq<int>)
    requires
        is_descending_order(keys, a),
        is_descending_order(keys, b),
    ensures
        a == b,
{
    assert forall|k: int| 0 <= k < a.len() implies a[k] == b[k] by {
        lemma_agree(keys, a, b, k);
    }
    assert(a =~= b);
}

proof fn lemma_agree(keys: Seq<int>, a: Seq<int>, b: Seq<int>, k: int)
    requires
        is_descending_order(keys, a),
        is_descending_order(keys, b),
        0 <= k < a.len(),
    ensures
        a[k] == b[k],
    decreases k,
{
    assert forall|i: int| 0 <= i < k implies a[i] == b[i] by {
        lemma_agree(keys, a, b, i);
    }
    law_order_misses_nothing(keys, b, a[k]);
    law_order_misses_nothing(keys, a, b[k]);
    let p = choose|p: int| 0 <= p < b.len() && b[p] == a[k];
    let q = choose|q: int| 0 <= q < a.len() && a[q] == b[k];
    if p < k {
        assert(a[p] == b[p]);
        assert(ranks_before(keys, a[p], a[k]));
    } else if q < k {
        assert(a[q] == b[q]);
        assert(ranks_before(keys, b[q], b[k]));
    } else if a[k] != b[k] {
        assert(ranks_before(keys, b[k], b[p]));
        assert(ranks_before(keys, a[k], a[q]));
    }
}

/// An order lists every place once, the greater keys first and equal keys as they stood.
pub proof fn law_orders_go_from_great_to_small(keys: &Vec<i128>, r: Vec<usize>, i: int, j: int)
    requires
        call_ensures(descending_order, (keys,), r),
        0 <= i < j < r@.len(),
    ensures
        r@.len() == keys@.len(),
        r@[i] < keys@.len() && r@[j] < keys@.len(),
        keys@[r@[i] as int] >= keys@[r@[j] as int],
        keys@[r@[i] as int] == keys@[r@[j] as int] ==> r@[i] < r@[j],
{
    let order = positions(r@);
    law_order_repeats_nothing(ints(keys@), order);
    assert(0 <= order[i] < keys@.len());
    assert(0 <= order[j] < keys@.len());
    assert(ranks_before(ints(keys@), order[i], order[j]));
}

} // verus!
