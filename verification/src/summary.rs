//! Totals over a list of transactions.

use crate::model::{
    transaction_views, StatementSummary, StatementSummaryView, Transaction, TransactionView,
};
use vstd::prelude::*;

verus! {

/// The sum of the amounts that came in.
pub open spec fn total_in(ts: Seq<TransactionView>) -> int
    decreases ts.len(),
{
    if ts.len() == 0 {
        0
    } else {
        total_in(ts.drop_last()) + match ts.last().money_in {
            Some(v) => v,
            None => 0,
        }
    }
}

/// The sum of the magnitudes of the amounts that went out.
pub open spec fn total_out(ts: Seq<TransactionView>) -> int
    decreases ts.len(),
{
    if ts.len() == 0 {
        0
    } else {
        total_out(ts.drop_last()) + match ts.last().money_out {
            Some(v) => if v < 0 {
                -v
            } else {
                v
            },
            None => 0,
        }
    }
}

/// The balance after the last transaction of the list; zero for an empty list.
pub open spec fn closing_balance(ts: Seq<TransactionView>) -> int {
    if ts.len() == 0 {
        0
    } else {
        ts.last().balance
    }
}

/// The summary of a list of transactions over a given span.
pub open spec fn summary_of(ts: Seq<TransactionView>, start: Seq<char>, end: Seq<char>)
    -> StatementSummaryView {
    StatementSummaryView {
        total_income: total_in(ts),
        total_expenses: total_out(ts),
        balance: closing_balance(ts),
        start_date: start,
        end_date: end,
    }
}

/// Derives the totals of a list of transactions. The span is handed in, never derived from
/// the transactions. No list is too long and no amount too large: the totals are `i128`.
pub fn summarize(transactions: &Vec<Transaction>, start_date: &str, end_date: &str) -> (s:
    StatementSummary)
    ensures
        s@ == summary_of(transaction_views(transactions@), start_date@, end_date@),
{
    let ghost ts = transaction_views(transactions@);
    let n: usize = transactions.len();
    let mut income: i128 = 0;
    let mut expenses: i128 = 0;
    let mut i: usize = 0;
    while i < n
        invariant
            i <= n == transactions.len(),
            ts == transaction_views(transactions@),
            income == total_in(ts.take(i as int)),
            expenses == total_out(ts.take(i as int)),
            -(i as int) * 0x8000_0000_0000_0000 <= income <= (i as int) * 0x8000_0000_0000_0000,
            0 <= expenses <= (i as int) * 0x8000_0000_0000_0000,
        decreases n - i,
    {
        proof {
            assert(ts.take(i + 1).drop_last() == ts.take(i as int));
            assert(ts.take(i + 1).last() == transactions@[i as int]@);
        }
        let t = &transactions[i];
        match t.money_in {
            Some(v) => {
                income = income + (v as i128);
            },
            None => {},
        }
        match t.money_out {
            Some(v) => {
                let m: i128 = if v < 0 {
                    -(v as i128)
                } else {
                    v as i128
                };
                expenses = expenses + m;
            },
            None => {},
        }
        i += 1;
    }
    proof {
        assert(ts.take(n as int) == ts);
    }
    let balance: i64 = if n == 0 {
        0
    } else {
        transactions[n - 1].balance
    };
    StatementSummary {
        total_income: income,
        total_expenses: expenses,
        balance,
        start_date: start_date.to_string(),
        end_date: end_date.to_string(),
    }
}

} // verus!
