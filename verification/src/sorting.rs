//! A stable sort by descending key.

use vstd::multiset::Multiset;
use vstd::prelude::*;

verus! {

/// The keys of keyed entries, in order.
pub open spec fn keys_of<T>(entries: Seq<(i128, T)>) -> Seq<int> {
    Seq::new(entries.len(), |i: int| entries[i].0 as int)
}

/// The values of keyed entries, in order.
pub open spec fn values_of<T>(entries: Seq<(i128, T)>) -> Seq<T> {
    Seq::new(entries.len(), |i: int| entries[i].1)
}

/// Whether `order` lists the positions `0 .. keys.len()` by descending key, positions of equal
/// key in ascending order. There is exactly one such listing of any `keys`.
pub open spec fn is_stable_descending(keys: Seq<int>, order: Seq<int>) -> bool {
    &&& order.len() == keys.len()
    &&& forall|i: int| 0 <= i < order.len() ==> 0 <= #[trigger] order[i] < keys.len()
    &&& forall|i: int, j: int|
        0 <= i < j < order.len() ==> keys[#[trigger] order[i]] > keys[#[trigger] order[j]] || (
        keys[order[i]] == keys[order[j]] && order[i] < order[j])
}

/// The items taken in the order of the positions listed.
pub open spec fn arranged<T>(items: Seq<T>, order: Seq<int>) -> Seq<T> {
    Seq::new(order.len(), |i: int| items[order[i]])
}

/// Whether `sorted` is `items` sorted by descending key, items of equal key keeping the order
/// they had.
pub open spec fn is_stable_descending_sort<T>(keys: Seq<int>, items: Seq<T>, sorted: Seq<T>)
    -> bool {
    exists|order: Seq<int>| #[trigger]
        is_stable_descending(keys, order) && sorted == arranged(items, order)
}

/// A listing by descending key names every position exactly once.
pub proof fn lemma_order_is_permutation(keys: Seq<int>, order: Seq<int>)
    requires
        is_stable_descending(keys, order),
    ensures
        order.no_duplicates(),
        forall|p: int| 0 <= p < keys.len() ==> order.contains(p),
{
    assert(order.no_duplicates()) by {
        assert forall|i: int, j: int| 0 <= i < order.len() && 0 <= j < order.len() && i != j
            implies order[i] != order[j] by {
            if i < j {
                assert(keys[order[i]] > keys[order[j]] || order[i] < order[j]);
            } else {
                assert(keys[order[j]] > keys[order[i]] || order[j] < order[i]);
            }
        }
    }
    let positions = Set::new(|p: int| 0 <= p < keys.len());
    vstd::set_lib::lemma_int_range(0, keys.len() as int);
    assert(positions == vstd::set_lib::set_int_range(0, keys.len() as int));
    order.unique_seq_to_set();
    assert(order.to_set().subset_of(positions)) by {
        assert forall|p: int| order.to_set().contains(p) implies positions.contains(p) by {
            let i = choose|i: int| 0 <= i < order.len() && order[i] == p;
            assert(0 <= order[i] < keys.len());
        }
    }
    vstd::set_lib::lemma_subset_equality(order.to_set(), positions);
    assert forall|p: int| 0 <= p < keys.len() implies order.contains(p) by {
        assert(positions.contains(p));
        assert(order.to_set().contains(p));
    }
}

/// Two listings by descending key agree on their first `n` positions.
proof fn lemma_orders_agree_up_to(keys: Seq<int>, a: Seq<int>, b: Seq<int>, n: nat)
    requires
        is_stable_descending(keys, a),
        is_stable_descending(keys, b),
        n <= keys.len(),
    ensures
        forall|i: int| 0 <= i < n ==> a[i] == b[i],
    decreases n,
{
    if n > 0 {
        lemma_orders_agree_up_to(keys, a, b, (n - 1) as nat);
        lemma_order_is_permutation(keys, a);
        lemma_order_is_permutation(keys, b);
        let i = n - 1;
        assert(0 <= a[i] < keys.len());
        assert(0 <= b[i] < keys.len());
        assert(b.contains(a[i]));
        assert(a.contains(b[i]));
        let j = choose|j: int| 0 <= j < b.len() && b[j] == a[i];
        let k = choose|k: int| 0 <= k < a.len() && a[k] == b[i];
        if j < i {
            assert(a[j] == b[j]);
        }
        if k < i {
            assert(b[k] == a[k]);
        }
        if j > i && k > i {
            assert(keys[b[i]] > keys[b[j]] || (keys[b[i]] == keys[b[j]] && b[i] < b[j]));
            assert(keys[a[i]] > keys[a[k]] || (keys[a[i]] == keys[a[k]] && a[i] < a[k]));
        }
    }
}

/// Keys have one listing by descending key, and so items one stable descending sort.
pub proof fn lemma_stable_order_unique(keys: Seq<int>, a: Seq<int>, b: Seq<int>)
    requires
        is_stable_descending(keys, a),
        is_stable_descending(keys, b),
    ensures
        a == b,
{
    lemma_orders_agree_up_to(keys, a, b, keys.len());
    assert(a =~= b);
}

/// Sorts keyed items by descending key and hands out the items. Items of equal key stay in
/// the order in which they came.
pub fn sort_descending<T>(entries: Vec<(i128, T)>) -> (sorted: Vec<T>)
    ensures
        is_stable_descending_sort(keys_of(entries@), values_of(entries@), sorted@),
        sorted.len() == entries.len(),
        sorted@.to_multiset() == values_of(entries@).to_multiset(),
{
    let ghost all = entries@;
    let ghost keys = keys_of(all);
    let ghost n = all.len() as int;
    let mut rest = entries;
    let mut out: Vec<T> = Vec::new();
    let mut out_keys: Vec<i128> = Vec::new();
    let ghost mut order: Seq<int> = Seq::empty();
    proof {
        assert(out@.to_multiset() =~= Multiset::<T>::empty()) by {
            vstd::seq_lib::to_multiset_len(out@);
            vstd::multiset::lemma_multiset_empty_len(out@.to_multiset());
        }
        assert(Multiset::<T>::empty().add(values_of(all).to_multiset()) =~= values_of(
            all,
        ).to_multiset());
        assert(all.take(all.len() as int) =~= all);
    }
    loop
        invariant
            n == all.len(),
            keys == keys_of(all),
            rest@ == all.take(rest.len() as int),
            rest.len() <= n,
            out.len() == n - rest.len(),
            out_keys.len() == out.len(),
            order.len() == out.len(),
            forall|i: int|
                0 <= i < order.len() ==> rest.len() <= #[trigger] order[i] < n && out@[i]
                    == all[order[i]].1 && out_keys@[i] == keys[order[i]],
            forall|i: int, j: int|
                0 <= i < j < order.len() ==> keys[#[trigger] order[i]] > keys[#[trigger] order[j]]
                    || (keys[order[i]] == keys[order[j]] && order[i] < order[j]),
            out@.to_multiset().add(values_of(rest@).to_multiset()) == values_of(all).to_multiset(),
        ensures
            rest.len() == 0,
            out@.to_multiset() == values_of(all).to_multiset(),
            out.len() == n,
            order.len() == n,
            forall|i: int|
                0 <= i < order.len() ==> 0 <= #[trigger] order[i] < n && out@[i]
                    == all[order[i]].1,
            forall|i: int, j: int|
                0 <= i < j < order.len() ==> keys[#[trigger] order[i]] > keys[#[trigger] order[j]]
                    || (keys[order[i]] == keys[order[j]] && order[i] < order[j]),
        decreases rest.len(),
    {
        let ghost at = rest.len() - 1;
        let ghost old_rest = rest@;
        match rest.pop() {
            None => {
                proof {
                    assert(values_of(rest@) =~= Seq::<T>::empty());
                    assert(values_of(rest@).to_multiset() =~= Multiset::<T>::empty()) by {
                        vstd::seq_lib::to_multiset_len(values_of(rest@));
                        vstd::multiset::lemma_multiset_empty_len(values_of(rest@).to_multiset());
                    }
                    assert(out@.to_multiset() =~= out@.to_multiset().add(Multiset::<T>::empty()));
                }
                break ;
            },
            Some(entry) => {
                let (key, item) = entry;
                assert(key == keys[at]);
                assert(item == all[at].1);
                let mut pos: usize = 0;
                while pos < out_keys.len() && out_keys[pos] > key
                    invariant
                        pos <= out_keys.len(),
                        forall|i: int| 0 <= i < pos ==> out_keys@[i] > key,
                    decreases out_keys.len() - pos,
                {
                    pos += 1;
                }
                let ghost old_order = order;
                let ghost old_keys = out_keys@;
                assert forall|j: int| pos <= j < old_order.len() implies old_keys[j] <= key by {
                    if j > pos {
                        assert(keys[old_order[pos as int]] >= keys[old_order[j]]);
                    }
                }
                let ghost old_out = out@;
                out.insert(pos, item);
                out_keys.insert(pos, key);
                proof {
                    assert(values_of(old_rest) =~= values_of(rest@).push(item));
                    vstd::seq_lib::to_multiset_build(values_of(rest@), item);
                    vstd::seq_lib::to_multiset_insert(old_out, pos as int, item);
                    assert(out@.to_multiset().add(values_of(rest@).to_multiset())
                        =~= old_out.to_multiset().add(values_of(old_rest).to_multiset()));
                    order = old_order.insert(pos as int, at);
                    assert forall|i: int| 0 <= i < order.len() implies rest.len()
                        <= #[trigger] order[i] < n && out@[i] == all[order[i]].1 && out_keys@[i]
                        == keys[order[i]] by {
                        if i < pos {
                            assert(order[i] == old_order[i]);
                        } else if i > pos {
                            assert(order[i] == old_order[i - 1]);
                        }
                    }
                    assert forall|i: int, j: int| 0 <= i < j < order.len() implies keys[
                    #[trigger] order[i]] > keys[#[trigger] order[j]] || (keys[order[i]]
                        == keys[order[j]] && order[i] < order[j]) by {
                        if j < pos {
                            assert(order[i] == old_order[i] && order[j] == old_order[j]);
                        } else if j == pos {
                            assert(order[i] == old_order[i]);
                            assert(old_keys[i] > key);
                        } else if i < pos {
                            assert(order[i] == old_order[i] && order[j] == old_order[j - 1]);
                        } else if i == pos {
                            assert(order[j] == old_order[j - 1]);
                            assert(old_keys[j - 1] <= key);
                        } else {
                            assert(order[i] == old_order[i - 1] && order[j] == old_order[j - 1]);
                        }
                    }
                }
            },
        }
    }
    proof {
        assert(is_stable_descending(keys, order));
        assert(out@ =~= arranged(values_of(all), order));
    }
    out
}

} // verus!
