//! Reading a statement out of a bank's CSV export. The table is read by the `csv` crate;
//! the columns are taken by position.

use crate::dates::{date_fields, date_of, parse_date, CalendarDate};
use crate::model::{
    optional_amount, optional_text, transaction_views, StatementData, StatementDataView,
    StatementPeriod, Transaction, TransactionView, UNKNOWN,
};
use crate::money::{amount_of, parse_amount};
use crate::summary::{summarize, summary_of};
use crate::text::{chars_of, string_from_chars, trim, trimmed, views_of};
use vstd::prelude::*;
use vstd::string::StringExecFns;

verus! {

/// The account number of every statement that comes from a CSV export, which names none.
pub const CSV_ACCOUNT: &'static str = "CSV-IMPORT";

/// Said, before the reader's message, of a table that cannot be read.
pub const CSV_RECORD_FAILED: &'static str = "Failed to read CSV record: ";

/// A row with fewer fields than this is passed over.
pub const MIN_FIELDS: usize = 8;

/// The position of the posting date.
pub const POSTING_DATE_COLUMN: usize = 2;

/// The position of the transaction date.
pub const TRANSACTION_DATE_COLUMN: usize = 3;

/// The position of the description.
pub const DESCRIPTION_COLUMN: usize = 4;

/// The position of the category.
pub const CATEGORY_COLUMN: usize = 6;

/// The position of the amount that came in.
pub const MONEY_IN_COLUMN: usize = 7;

/// The position of the amount that went out.
pub const MONEY_OUT_COLUMN: usize = 8;

/// The position of the balance.
pub const BALANCE_COLUMN: usize = 10;

/// The records of a table: one sequence of fields for each row.
pub type Records = Seq<Seq<Seq<char>>>;

/// What the `csv` crate reads from `content` with a reader that takes rows of any width, trims
/// every field and treats the first row as headers: the fields of the rows after the first, in
/// order, or the text of the first error that the reader reports.
pub uninterp spec fn csv_records(content: Seq<u8>) -> Result<Records, Seq<char>>;

/// The view of records or an error text.
pub open spec fn records_result(r: Result<Vec<Vec<String>>, String>) -> Result<
    Records,
    Seq<char>,
> {
    match r {
        Ok(records) => Ok(records_view(records@)),
        Err(e) => Err(e@),
    }
}

/// The view of records.
pub open spec fn records_view(records: Seq<Vec<String>>) -> Records {
    Seq::new(records.len(), |i: int| views_of(records[i]@))
}

/// Field `i` of a record, trimmed; `None` where the record is shorter.
pub open spec fn field(record: Seq<Seq<char>>, i: int) -> Option<Seq<char>> {
    if 0 <= i < record.len() {
        Some(trimmed(record[i]))
    } else {
        None
    }
}

/// Field `i` of a record, trimmed; empty where the record is shorter.
pub open spec fn field_or_empty(record: Seq<Seq<char>>, i: int) -> Seq<char> {
    match field(record, i) {
        Some(s) => s,
        None => Seq::empty(),
    }
}

/// How a numeric field was read: as the amount it denotes, or not at all, in which case the
/// field's default stands in for it.
#[derive(Debug, Clone, Copy, PartialEq, Eq, Structural)]
pub enum Reading {
    Parsed(i64),
    Defaulted,
}

/// How field `i` of a record reads as a number: defaulted where the record is shorter or the
/// field, trimmed, is no amount.
pub open spec fn reading_of(record: Seq<Seq<char>>, i: int) -> Reading {
    match field(record, i) {
        Some(s) => match amount_of(s) {
            Some(v) => Reading::Parsed(v),
            None => Reading::Defaulted,
        },
        None => Reading::Defaulted,
    }
}

/// The amount in field `i` of a record; `None` where the field is defaulted.
pub open spec fn field_amount(record: Seq<Seq<char>>, i: int) -> Option<int> {
    match reading_of(record, i) {
        Reading::Parsed(v) => Some(v as int),
        Reading::Defaulted => None,
    }
}

/// How many of the three numeric fields of a record are defaulted.
pub open spec fn defaulted_in(record: Seq<Seq<char>>) -> nat {
    let missing = |i: int|
        if reading_of(record, i) == Reading::Defaulted {
            1nat
        } else {
            0nat
        };
    missing(MONEY_IN_COLUMN as int) + missing(MONEY_OUT_COLUMN as int) + missing(
        BALANCE_COLUMN as int,
    )
}

/// How many numeric fields are defaulted over all the records that become transactions.
pub open spec fn defaulted_count(records: Records) -> nat
    decreases records.len(),
{
    if records.len() == 0 {
        0
    } else {
        defaulted_count(records.drop_last()) + if records.last().len() < MIN_FIELDS {
            0nat
        } else {
            defaulted_in(records.last())
        }
    }
}

/// The transaction that a record holds, by the fixed positions of its columns. An amount that
/// cannot be read is absent; a balance that cannot be read is zero.
pub open spec fn row_transaction(record: Seq<Seq<char>>) -> TransactionView {
    TransactionView {
        posting_date: field_or_empty(record, POSTING_DATE_COLUMN as int),
        transaction_date: field_or_empty(record, TRANSACTION_DATE_COLUMN as int),
        description: field_or_empty(record, DESCRIPTION_COLUMN as int),
        money_in: field_amount(record, MONEY_IN_COLUMN as int),
        money_out: field_amount(record, MONEY_OUT_COLUMN as int),
        balance: match field_amount(record, BALANCE_COLUMN as int) {
            Some(v) => v,
            None => 0,
        },
        category: field(record, CATEGORY_COLUMN as int),
        transaction_type: UNKNOWN@,
    }
}

/// The transactions of a table: one for each record of at least [`MIN_FIELDS`] fields, in the
/// order of the records.
pub open spec fn rows_transactions(records: Records) -> Seq<TransactionView>
    decreases records.len(),
{
    if records.len() == 0 {
        Seq::empty()
    } else {
        let before = rows_transactions(records.drop_last());
        if records.last().len() < MIN_FIELDS {
            before
        } else {
            before.push(row_transaction(records.last()))
        }
    }
}

/// The rank of the date that a text denotes, `None` where it denotes none.
pub open spec fn date_rank(text: Seq<char>) -> Option<int> {
    match date_of(text) {
        Some((year, month, day)) => Some(
            year * 0x1_0000_0000_0000_0000 + month * 0x1_0000_0000 + day,
        ),
        None => None,
    }
}

/// The ranks of the posting dates of transactions, in order.
pub open spec fn posting_date_ranks(ts: Seq<TransactionView>) -> Seq<Option<int>> {
    Seq::new(ts.len(), |i: int| date_rank(ts[i].posting_date))
}

/// Whether position `i` holds the least rank, and is the first position to hold it.
pub open spec fn is_first_minimum(ranks: Seq<Option<int>>, i: int) -> bool {
    &&& 0 <= i < ranks.len()
    &&& ranks[i] is Some
    &&& forall|j: int|
        0 <= j < ranks.len() && (#[trigger] ranks[j]) is Some ==> ranks[i]->0 < ranks[j]->0 || (
        ranks[i]->0 == ranks[j]->0 && i <= j)
}

/// Whether position `i` holds the greatest rank, and is the first position to hold it.
pub open spec fn is_first_maximum(ranks: Seq<Option<int>>, i: int) -> bool {
    &&& 0 <= i < ranks.len()
    &&& ranks[i] is Some
    &&& forall|j: int|
        0 <= j < ranks.len() && (#[trigger] ranks[j]) is Some ==> ranks[i]->0 > ranks[j]->0 || (
        ranks[i]->0 == ranks[j]->0 && i <= j)
}

/// Whether `from` and `to` are the span of the transactions: the posting dates, as written, of
/// the first transaction with the earliest readable date and of the first with the latest;
/// both empty where no posting date can be read.
pub open spec fn is_span(ts: Seq<TransactionView>, from: Seq<char>, to: Seq<char>) -> bool {
    let ranks = posting_date_ranks(ts);
    if forall|j: int| 0 <= j < ranks.len() ==> (#[trigger] ranks[j]) is None {
        from == Seq::<char>::empty() && to == Seq::<char>::empty()
    } else {
        exists|lo: int, hi: int|
            #![trigger is_first_minimum(ranks, lo), is_first_maximum(ranks, hi)]
            is_first_minimum(ranks, lo) && is_first_maximum(ranks, hi) && from
                == ts[lo].posting_date && to == ts[hi].posting_date
    }
}

/// Whether `data` is the statement of the given transactions of a CSV export.
pub open spec fn is_csv_statement(data: StatementDataView, ts: Seq<TransactionView>) -> bool {
    &&& data.transactions == ts
    &&& data.account_number == CSV_ACCOUNT@
    &&& is_span(ts, data.statement_period.from_date, data.statement_period.to_date)
    &&& data.statement_period.print_date == data.statement_period.to_date
    &&& data.summary == summary_of(
        ts,
        data.statement_period.from_date,
        data.statement_period.to_date,
    )
}

/// Whether `r` is what reading the bytes of a CSV export gives: the reader's failure under
/// its heading, else the statement of the transactions of the records read.
pub open spec fn is_csv_outcome(content: Seq<u8>, r: Result<StatementDataView, Seq<char>>)
    -> bool {
    match csv_records(content) {
        Err(e) => r == Err::<StatementDataView, Seq<char>>(CSV_RECORD_FAILED@ + e),
        Ok(records) => r matches Ok(data) && is_csv_statement(data, rows_transactions(records)),
    }
}

/// A row takes one side at most unless both of its amount columns hold an amount.
pub proof fn lemma_row_one_sided(record: Seq<Seq<char>>)
    requires
        field_amount(record, MONEY_IN_COLUMN as int) is None || field_amount(
            record,
            MONEY_OUT_COLUMN as int,
        ) is None,
    ensures
        row_transaction(record).one_sided(),
{
}

/// Reads the table in `content` with a `csv::Reader` made by `csv::ReaderBuilder` with
/// `flexible(true)` and `trim(csv::Trim::All)`, and collects what `csv::Reader::records`
/// yields: each record as its fields, or the text of the first error.
#[verifier::external_body]
pub(crate) fn read_records(content: &[u8]) -> (r: Result<Vec<Vec<String>>, String>)
    ensures
        records_result(r) == csv_records(content@),
{
    let mut reader = csv::ReaderBuilder::new().flexible(true).trim(csv::Trim::All).from_reader(
        content,
    );
    let mut records: Vec<Vec<String>> = Vec::new();
    for record in reader.records() {
        match record {
            Ok(fields) => records.push(fields.iter().map(|f| f.to_string()).collect()),
            Err(e) => return Err(e.to_string()),
        }
    }
    Ok(records)
}

/// Field `i` of a record, trimmed.
fn field_text(record: &Vec<String>, i: usize) -> (r: Option<String>)
    ensures
        optional_text(r) == field(views_of(record@), i as int),
{
    if i < record.len() {
        Some(string_from_chars(&trim(&chars_of(record[i].as_str()))))
    } else {
        None
    }
}

/// Reads field `i` of a record as a number, and says so where it cannot.
pub fn read_number(record: &Vec<String>, i: usize) -> (r: Reading)
    ensures
        r == reading_of(views_of(record@), i as int),
{
    if i < record.len() {
        match parse_amount(&trim(&chars_of(record[i].as_str()))) {
            Some(v) => Reading::Parsed(v),
            None => Reading::Defaulted,
        }
    } else {
        Reading::Defaulted
    }
}

/// The amount in field `i` of a record, absent where the field is defaulted.
fn field_number(record: &Vec<String>, i: usize) -> (r: Option<i64>)
    ensures
        optional_amount(r) == field_amount(views_of(record@), i as int),
{
    match read_number(record, i) {
        Reading::Parsed(v) => Some(v),
        Reading::Defaulted => None,
    }
}

/// Counts the defaulted numeric fields of one record.
fn defaulted_of(record: &Vec<String>) -> (n: u128)
    ensures
        n == defaulted_in(views_of(record@)),
        n <= 3,
{
    let mut n: u128 = 0;
    if read_number(record, MONEY_IN_COLUMN) == Reading::Defaulted {
        n = n + 1;
    }
    if read_number(record, MONEY_OUT_COLUMN) == Reading::Defaulted {
        n = n + 1;
    }
    if read_number(record, BALANCE_COLUMN) == Reading::Defaulted {
        n = n + 1;
    }
    n
}

/// Counts, over the records that become transactions, the numeric fields that could not be
/// read and were defaulted: absent for an amount, zero for a balance. Reading them so is no
/// error; this is the tally of how often it happened.
pub fn defaulted_fields(records: &Vec<Vec<String>>) -> (n: u128)
    ensures
        n == defaulted_count(records_view(records@)),
{
    let ghost all = records_view(records@);
    let mut n: u128 = 0;
    let mut i: usize = 0;
    proof {
        assert(all.take(0).len() == 0);
    }
    while i < records.len()
        invariant
            i <= records.len(),
            all == records_view(records@),
            n == defaulted_count(all.take(i as int)),
            n <= 3 * i,
        decreases records.len() - i,
    {
        proof {
            assert(all.take(i + 1).drop_last() == all.take(i as int));
            assert(all.take(i + 1).last() == views_of(records@[i as int]@));
        }
        let record = &records[i];
        if record.len() >= MIN_FIELDS {
            n = n + defaulted_of(record);
        }
        i += 1;
    }
    proof {
        assert(all.take(i as int) == all);
    }
    n
}

/// Builds the transaction of one record, by the fixed positions of its columns.
pub fn transaction_from_record(record: &Vec<String>) -> (t: Transaction)
    ensures
        t@ == row_transaction(views_of(record@)),
{
    Transaction {
        posting_date: match field_text(record, POSTING_DATE_COLUMN) {
            Some(s) => s,
            None => String::new(),
        },
        transaction_date: match field_text(record, TRANSACTION_DATE_COLUMN) {
            Some(s) => s,
            None => String::new(),
        },
        description: match field_text(record, DESCRIPTION_COLUMN) {
            Some(s) => s,
            None => String::new(),
        },
        money_in: field_number(record, MONEY_IN_COLUMN),
        money_out: field_number(record, MONEY_OUT_COLUMN),
        balance: match field_number(record, BALANCE_COLUMN) {
            Some(v) => v,
            None => 0,
        },
        category: field_text(record, CATEGORY_COLUMN),
        transaction_type: UNKNOWN.to_string(),
    }
}

/// Builds the transactions of a table, passing over the records that are too short.
pub fn transactions_from_records(records: &Vec<Vec<String>>) -> (r: Vec<Transaction>)
    ensures
        transaction_views(r@) == rows_transactions(records_view(records@)),
{
    let ghost all = records_view(records@);
    let mut r: Vec<Transaction> = Vec::new();
    let mut i: usize = 0;
    proof {
        assert(transaction_views(r@) == Seq::<TransactionView>::empty());
        assert(all.take(0).len() == 0);
    }
    while i < records.len()
        invariant
            i <= records.len(),
            all == records_view(records@),
            transaction_views(r@) == rows_transactions(all.take(i as int)),
        decreases records.len() - i,
    {
        proof {
            assert(all.take(i + 1).drop_last() == all.take(i as int));
            assert(all.take(i + 1).last() == views_of(records@[i as int]@));
        }
        let record = &records[i];
        if record.len() >= MIN_FIELDS {
            let t = transaction_from_record(record);
            let ghost before = r@;
            r.push(t);
            assert(transaction_views(r@) == transaction_views(before).push(t@));
        }
        i += 1;
    }
    proof {
        assert(all.take(i as int) == all);
    }
    r
}

/// The rank of a date that was read, `None` where none was.
pub fn rank_of_reading(date: Option<CalendarDate>) -> (r: Option<i128>)
    ensures
        r == (match date {
            Some(d) => Some(d.rank() as i128),
            None => None,
        }),
        (match r {
            Some(v) => Some(v as int),
            None => None,
        }) == (match date_fields(date) {
            Some((year, month, day)) => Some(
                year * 0x1_0000_0000_0000_0000 + month * 0x1_0000_0000 + day,
            ),
            None => None,
        }),
{
    match date {
        Some(d) => Some(d.ordinal()),
        None => None,
    }
}

/// The ranks as integers.
pub open spec fn ranks_view(ranks: Seq<Option<i128>>) -> Seq<Option<int>> {
    Seq::new(
        ranks.len(),
        |i: int|
            match ranks[i] {
                Some(v) => Some(v as int),
                None => None,
            },
    )
}

/// Finds, in one pass, the first position of the least rank and the first position of the
/// greatest; `None` where there is no rank at all.
pub fn extreme_positions(ranks: &Vec<Option<i128>>) -> (r: Option<(usize, usize)>)
    ensures
        match r {
            Some((lo, hi)) => is_first_minimum(ranks_view(ranks@), lo as int) && is_first_maximum(
                ranks_view(ranks@),
                hi as int,
            ),
            None => forall|j: int| 0 <= j < ranks.len() ==> (#[trigger] ranks_view(ranks@)[j]) is None,
        },
{
    let ghost view = ranks_view(ranks@);
    let mut found: Option<(usize, usize)> = None;
    let mut i: usize = 0;
    while i < ranks.len()
        invariant
            i <= ranks.len(),
            view == ranks_view(ranks@),
            match found {
                Some((lo, hi)) => is_first_minimum(view.take(i as int), lo as int)
                    && is_first_maximum(view.take(i as int), hi as int),
                None => forall|j: int| 0 <= j < i ==> (#[trigger] view[j]) is None,
            },
        decreases ranks.len() - i,
    {
        let ghost before = view.take(i as int);
        let ghost after = view.take(i + 1);
        proof {
            assert(after[i as int] == view[i as int]);
            assert forall|j: int| 0 <= j < i implies after[j] == before[j] by {}
        }
        match ranks[i] {
            None => {},
            Some(rank) => {
                found = match found {
                    None => Some((i, i)),
                    Some((lo, hi)) => {
                        let low = match ranks[lo] {
                            Some(v) => v,
                            None => rank,
                        };
                        let high = match ranks[hi] {
                            Some(v) => v,
                            None => rank,
                        };
                        Some(
                            (
                                if rank < low {
                                    i
                                } else {
                                    lo
                                },
                                if rank > high {
                                    i
                                } else {
                                    hi
                                },
                            ),
                        )
                    },
                };
            },
        }
        proof {
            match found {
                Some((lo, hi)) => {
                    assert forall|j: int| 0 <= j < after.len() && (#[trigger] after[j]) is Some
                        implies after[lo as int]->0 < after[j]->0 || (after[lo as int]->0
                        == after[j]->0 && lo <= j) by {
                        if j < i {
                            assert(before[j] is Some);
                        }
                    }
                    assert forall|j: int| 0 <= j < after.len() && (#[trigger] after[j]) is Some
                        implies after[hi as int]->0 > after[j]->0 || (after[hi as int]->0
                        == after[j]->0 && hi <= j) by {
                        if j < i {
                            assert(before[j] is Some);
                        }
                    }
                },
                None => {},
            }
        }
        i += 1;
    }
    proof {
        assert(view.take(i as int) == view);
    }
    found
}

/// Reads the posting date of every transaction and ranks it.
pub fn read_posting_ranks(transactions: &Vec<Transaction>) -> (r: Vec<Option<i128>>)
    ensures
        ranks_view(r@) == posting_date_ranks(transaction_views(transactions@)),
{
    let mut r: Vec<Option<i128>> = Vec::new();
    let mut i: usize = 0;
    while i < transactions.len()
        invariant
            i <= transactions.len(),
            r.len() == i,
            forall|j: int|
                0 <= j < i ==> (#[trigger] ranks_view(r@)[j]) == date_rank(
                    transactions@[j]@.posting_date,
                ),
        decreases transactions.len() - i,
    {
        let rank = rank_of_reading(parse_date(transactions[i].posting_date.as_str()));
        let ghost before = r@;
        r.push(rank);
        proof {
            assert forall|j: int| 0 <= j < i + 1 implies (#[trigger] ranks_view(r@)[j])
                == date_rank(transactions@[j]@.posting_date) by {
                if j < i {
                    assert(ranks_view(before)[j] == date_rank(transactions@[j]@.posting_date));
                }
            }
        }
        i += 1;
    }
    proof {
        assert(ranks_view(r@) =~= posting_date_ranks(transaction_views(transactions@)));
    }
    r
}

/// Builds the statement of the records of a CSV export.
///
/// The span runs from the posting date of the first transaction with the earliest readable
/// date to that of the first with the latest; the print date is the end of the span. Posting
/// dates that cannot be read take no part, and the span is empty where none can.
pub fn statement_from_records(records: &Vec<Vec<String>>) -> (data: StatementData)
    ensures
        is_csv_statement(data@, rows_transactions(records_view(records@))),
{
    let transactions = transactions_from_records(records);
    let ranks = read_posting_ranks(&transactions);
    let (from_date, to_date) = match extreme_positions(&ranks) {
        Some((lo, hi)) => (
            transactions[lo].posting_date.clone(),
            transactions[hi].posting_date.clone(),
        ),
        None => (String::new(), String::new()),
    };
    let summary = summarize(&transactions, from_date.as_str(), to_date.as_str());
    let print_date = to_date.clone();
    StatementData {
        transactions,
        summary,
        account_number: CSV_ACCOUNT.to_string(),
        statement_period: StatementPeriod { from_date, to_date, print_date },
    }
}

/// Reads a whole statement from the bytes of a CSV export.
///
/// The first row is taken as headers. A table that the reader cannot read is refused with the
/// reader's message; rows that are too short, and fields that hold no number, are not errors.
pub fn process_csv_content(content: &[u8]) -> (r: Result<StatementData, String>)
    ensures
        is_csv_outcome(content@, crate::pdf::statement_result(r)),
{
    match read_records(content) {
        Err(e) => Err(String::from_str(CSV_RECORD_FAILED).concat(e.as_str())),
        Ok(records) => Ok(statement_from_records(&records)),
    }
}

} // verus!
