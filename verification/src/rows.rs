//! Transactions as rows of text, and back.

use crate::model::{optional_text, transaction_views, Transaction, TransactionView};
use crate::money::{
    amount_or_zero, amount_text, format_amount, lemma_amount_text_round_trip,
    parse_amount_or_zero,
};
use crate::records::{TransactionRow, TransactionRowView};
use crate::text::{chars_of, string_from_chars};
use vstd::prelude::*;

verus! {

/// The row in which a transaction is kept. Amounts are written in canonical decimal form; an
/// absent amount is null, and so is an absent category.
pub open spec fn encoded(t: TransactionView) -> TransactionRowView {
    TransactionRowView {
        posting_date: t.posting_date,
        transaction_date: t.transaction_date,
        description: t.description,
        money_in: match t.money_in {
            Some(v) => Some(amount_text(v)),
            None => None,
        },
        money_out: match t.money_out {
            Some(v) => Some(amount_text(v)),
            None => None,
        },
        balance: amount_text(t.balance),
        category: t.category,
        transaction_type: t.transaction_type,
    }
}

/// The transaction that a row holds. An amount that is there but cannot be read is zero, and
/// so is a balance that cannot be read.
pub open spec fn decoded(row: TransactionRowView) -> TransactionView {
    TransactionView {
        posting_date: row.posting_date,
        transaction_date: row.transaction_date,
        description: row.description,
        money_in: match row.money_in {
            Some(s) => Some(amount_or_zero(s)),
            None => None,
        },
        money_out: match row.money_out {
            Some(s) => Some(amount_or_zero(s)),
            None => None,
        },
        balance: amount_or_zero(row.balance),
        category: row.category,
        transaction_type: row.transaction_type,
    }
}

/// The views of rows, in order.
pub open spec fn row_views(rows: Seq<TransactionRow>) -> Seq<TransactionRowView> {
    Seq::new(rows.len(), |i: int| rows[i]@)
}

/// The transactions that rows hold, in order.
pub open spec fn decoded_all(rows: Seq<TransactionRowView>) -> Seq<TransactionView> {
    Seq::new(rows.len(), |i: int| decoded(rows[i]))
}

/// The rows in which transactions are kept, in order.
pub open spec fn encoded_all(ts: Seq<TransactionView>) -> Seq<TransactionRowView> {
    Seq::new(ts.len(), |i: int| encoded(ts[i]))
}

/// Whether every transaction of the list fits the machine types.
pub open spec fn all_representable(ts: Seq<TransactionView>) -> bool {
    forall|i: int| 0 <= i < ts.len() ==> (#[trigger] ts[i]).representable()
}

/// A transaction written to a row and read back is the transaction that was written.
pub proof fn lemma_row_round_trip(t: TransactionView)
    requires
        t.representable(),
    ensures
        decoded(encoded(t)) == t,
{
    match t.money_in {
        Some(v) => {
            lemma_amount_text_round_trip(v as i64);
        },
        None => {},
    }
    match t.money_out {
        Some(v) => {
            lemma_amount_text_round_trip(v as i64);
        },
        None => {},
    }
    lemma_amount_text_round_trip(t.balance as i64);
}

/// A list of transactions written to rows and read back is the list that was written, in the
/// same order.
pub proof fn lemma_rows_round_trip(ts: Seq<TransactionView>)
    requires
        all_representable(ts),
    ensures
        decoded_all(encoded_all(ts)) == ts,
{
    assert forall|i: int| 0 <= i < ts.len() implies decoded(encoded(#[trigger] ts[i])) == ts[i] by {
        lemma_row_round_trip(ts[i]);
    }
    assert(decoded_all(encoded_all(ts)) =~= ts);
}

/// Writes an optional amount as text.
fn amount_to_text(amount: Option<i64>) -> (r: Option<String>)
    ensures
        optional_text(r) == (match amount {
            Some(v) => Some(amount_text(v as int)),
            None => None,
        }),
{
    match amount {
        Some(v) => Some(string_from_chars(&format_amount(v))),
        None => None,
    }
}

/// Reads an optional amount from text.
fn amount_from_text(text: &Option<String>) -> (r: Option<i64>)
    ensures
        crate::model::optional_amount(r) == (match optional_text(*text) {
            Some(s) => Some(amount_or_zero(s)),
            None => None,
        }),
{
    match text {
        Some(s) => Some(parse_amount_or_zero(&chars_of(s.as_str()))),
        None => None,
    }
}

/// Writes a transaction as the row in which it is kept.
pub fn encode_transaction(t: &Transaction) -> (row: TransactionRow)
    ensures
        row@ == encoded(t@),
        decoded(row@) == t@,
{
    proof {
        lemma_row_round_trip(t@);
    }
    TransactionRow {
        posting_date: t.posting_date.clone(),
        transaction_date: t.transaction_date.clone(),
        description: t.description.clone(),
        money_in: amount_to_text(t.money_in),
        money_out: amount_to_text(t.money_out),
        balance: string_from_chars(&format_amount(t.balance)),
        category: crate::model::copy_optional_text(&t.category),
        transaction_type: t.transaction_type.clone(),
    }
}

/// Reads the transaction that a row holds.
pub fn decode_transaction(row: &TransactionRow) -> (t: Transaction)
    ensures
        t@ == decoded(row@),
{
    Transaction {
        posting_date: row.posting_date.clone(),
        transaction_date: row.transaction_date.clone(),
        description: row.description.clone(),
        money_in: amount_from_text(&row.money_in),
        money_out: amount_from_text(&row.money_out),
        balance: parse_amount_or_zero(&chars_of(row.balance.as_str())),
        category: crate::model::copy_optional_text(&row.category),
        transaction_type: row.transaction_type.clone(),
    }
}

/// Reads the transactions that rows hold, in the order of the rows.
pub fn decode_transactions(rows: &Vec<TransactionRow>) -> (ts: Vec<Transaction>)
    ensures
        transaction_views(ts@) == decoded_all(row_views(rows@)),
{
    let mut ts: Vec<Transaction> = Vec::new();
    let mut i: usize = 0;
    while i < rows.len()
        invariant
            i <= rows.len(),
            ts.len() == i,
            forall|j: int| 0 <= j < i ==> (#[trigger] ts@[j])@ == decoded(rows@[j]@),
        decreases rows.len() - i,
    {
        ts.push(decode_transaction(&rows[i]));
        i += 1;
    }
    proof {
        assert(transaction_views(ts@) =~= decoded_all(row_views(rows@)));
    }
    ts
}

} // verus!
