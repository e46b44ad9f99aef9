//! The order of a ledger: latest posting date first.

use crate::dates::{chrono_date, parse_naive_date, CalendarDate, DAY_FIRST_FORMAT};
use crate::model::{transaction_views, Transaction, TransactionView};
use crate::sorting::{
    arranged, is_stable_descending, is_stable_descending_sort, keys_of, sort_descending, values_of,
};
use vstd::prelude::*;

verus! {

/// The number by which a transaction is ordered: the rank of its posting date read day-first,
/// and the rank of the first day of 1970 where the posting date cannot be read so.
pub open spec fn posting_rank(t: TransactionView) -> int {
    match chrono_date(t.posting_date, DAY_FIRST_FORMAT@) {
        Some((year, month, day)) => year * 0x1_0000_0000_0000_0000 + month * 0x1_0000_0000 + day,
        None => CalendarDate::epoch().rank(),
    }
}

/// The posting ranks of transactions, in order.
pub open spec fn posting_ranks(ts: Seq<TransactionView>) -> Seq<int> {
    Seq::new(ts.len(), |i: int| posting_rank(ts[i]))
}

/// Whether `sorted` holds the transactions `found` by descending posting rank, those of equal
/// rank in the order they have in `found`.
pub open spec fn is_ordered_ledger(found: Seq<TransactionView>, sorted: Seq<TransactionView>)
    -> bool {
    is_stable_descending_sort(posting_ranks(found), found, sorted)
}

/// Whether every transaction of the list is well formed.
pub open spec fn all_well_formed(ts: Seq<TransactionView>) -> bool {
    forall|i: int| 0 <= i < ts.len() ==> (#[trigger] ts[i]).well_formed()
}

/// Ordering a ledger keeps what holds of each of its transactions.
pub proof fn lemma_order_keeps_well_formed(found: Seq<TransactionView>, sorted: Seq<TransactionView>)
    requires
        is_ordered_ledger(found, sorted),
        all_well_formed(found),
    ensures
        all_well_formed(sorted),
{
    let order = choose|order: Seq<int>| #[trigger]
        is_stable_descending(posting_ranks(found), order) && sorted == arranged(found, order);
    assert forall|i: int| 0 <= i < sorted.len() implies (#[trigger] sorted[i]).well_formed() by {
        assert(0 <= order[i] < found.len());
    }
}

/// The rank by which a transaction with the given reading of its posting date is ordered.
pub fn rank_of(date: Option<CalendarDate>) -> (r: i128)
    ensures
        r == (match date {
            Some(d) => d.rank(),
            None => CalendarDate::epoch().rank(),
        }),
{
    match date {
        Some(d) => d.ordinal(),
        None => CalendarDate::unix_epoch().ordinal(),
    }
}

/// Pairs each transaction with its posting rank.
pub fn with_posting_ranks(transactions: Vec<Transaction>) -> (r: Vec<(i128, Transaction)>)
    ensures
        keys_of(r@) == posting_ranks(transaction_views(transactions@)),
        values_of(r@) == transactions@,
{
    let ghost all = transactions@;
    let mut rest = transactions;
    let mut reversed: Vec<(i128, Transaction)> = Vec::new();
    while rest.len() > 0
        invariant
            rest@ == all.take(rest.len() as int),
            rest.len() <= all.len(),
            reversed.len() == all.len() - rest.len(),
            forall|j: int|
                0 <= j < reversed.len() ==> (#[trigger] reversed@[j]).1 == all[all.len() - 1 - j]
                    && reversed@[j].0 == posting_rank(all[all.len() - 1 - j]@),
        decreases rest.len(),
    {
        let ghost at = rest.len() - 1;
        let t = rest.pop().unwrap();
        assert(t == all[at]);
        let rank = rank_of(parse_naive_date(t.posting_date.as_str(), DAY_FIRST_FORMAT));
        reversed.push((rank, t));
    }
    let mut r: Vec<(i128, Transaction)> = Vec::new();
    while reversed.len() > 0
        invariant
            reversed.len() <= all.len(),
            r.len() == all.len() - reversed.len(),
            forall|j: int|
                0 <= j < reversed.len() ==> (#[trigger] reversed@[j]).1 == all[all.len() - 1 - j]
                    && reversed@[j].0 == posting_rank(all[all.len() - 1 - j]@),
            forall|j: int|
                0 <= j < r.len() ==> (#[trigger] r@[j]).1 == all[j] && r@[j].0 == posting_rank(
                    all[j]@,
                ),
        decreases reversed.len(),
    {
        let ghost at = reversed.len() - 1;
        let entry = reversed.pop().unwrap();
        r.push(entry);
    }
    proof {
        assert(keys_of(r@) =~= posting_ranks(transaction_views(all)));
        assert(values_of(r@) =~= all);
    }
    r
}

/// Orders transactions by descending posting date. Transactions of one day, and those whose
/// posting date cannot be read day-first (which rank as the first day of 1970), keep the
/// order in which they came.
pub fn order_by_posting_date(transactions: Vec<Transaction>) -> (sorted: Vec<Transaction>)
    ensures
        is_ordered_ledger(transaction_views(transactions@), transaction_views(sorted@)),
        sorted.len() == transactions.len(),
        all_well_formed(transaction_views(transactions@)) ==> all_well_formed(
            transaction_views(sorted@),
        ),
{
    let ghost before = transaction_views(transactions@);
    let keyed = with_posting_ranks(transactions);
    let sorted = sort_descending(keyed);
    proof {
        let order = choose|order: Seq<int>| #[trigger]
            is_stable_descending(keys_of(keyed@), order) && sorted@ == arranged(
                values_of(keyed@),
                order,
            );
        assert(transaction_views(sorted@) =~= arranged(before, order));
        if all_well_formed(before) {
            lemma_order_keeps_well_formed(before, transaction_views(sorted@));
        }
    }
    sorted
}

} // verus!
