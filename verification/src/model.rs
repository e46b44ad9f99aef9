//! The ledger's data: transactions, the period and summary of a statement, and what a parsed
//! statement holds. Each type has a view over plain mathematical values.

use vstd::prelude::*;

verus! {

/// The transaction type of an amount that came in.
pub const CREDIT: &'static str = "credit";

/// The transaction type of an amount that went out, and of a zero amount.
pub const DEBIT: &'static str = "debit";

/// The transaction type of a row whose source carries no sign.
pub const UNKNOWN: &'static str = "UNKNOWN";

/// One ledger entry. Amounts are hundredths of the currency unit.
#[derive(Debug, Clone, PartialEq, Eq)]
pub struct Transaction {
    pub posting_date: String,
    pub transaction_date: String,
    pub description: String,
    pub money_in: Option<i64>,
    pub money_out: Option<i64>,
    pub balance: i64,
    pub category: Option<String>,
    pub transaction_type: String,
}

/// The value of a [`Transaction`].
pub struct TransactionView {
    pub posting_date: Seq<char>,
    pub transaction_date: Seq<char>,
    pub description: Seq<char>,
    pub money_in: Option<int>,
    pub money_out: Option<int>,
    pub balance: int,
    pub category: Option<Seq<char>>,
    pub transaction_type: Seq<char>,
}

/// The span of days that a statement covers, and the day it was printed.
#[derive(Debug, Clone, PartialEq, Eq)]
pub struct StatementPeriod {
    pub from_date: String,
    pub to_date: String,
    pub print_date: String,
}

/// The value of a [`StatementPeriod`].
pub struct StatementPeriodView {
    pub from_date: Seq<char>,
    pub to_date: Seq<char>,
    pub print_date: Seq<char>,
}

/// Totals over a statement's transactions, in hundredths, and the span they cover.
#[derive(Debug, Clone, PartialEq, Eq)]
pub struct StatementSummary {
    pub total_income: i128,
    pub total_expenses: i128,
    pub balance: i64,
    pub start_date: String,
    pub end_date: String,
}

/// The value of a [`StatementSummary`].
pub struct StatementSummaryView {
    pub total_income: int,
    pub total_expenses: int,
    pub balance: int,
    pub start_date: Seq<char>,
    pub end_date: Seq<char>,
}

/// What parsing one statement yields.
#[derive(Debug, Clone, PartialEq, Eq)]
pub struct StatementData {
    pub transactions: Vec<Transaction>,
    pub summary: StatementSummary,
    pub account_number: String,
    pub statement_period: StatementPeriod,
}

/// The value of a [`StatementData`].
pub struct StatementDataView {
    pub transactions: Seq<TransactionView>,
    pub summary: StatementSummaryView,
    pub account_number: Seq<char>,
    pub statement_period: StatementPeriodView,
}

/// The view of an optional string.
pub open spec fn optional_text(o: Option<String>) -> Option<Seq<char>> {
    match o {
        Some(s) => Some(s@),
        None => None,
    }
}

/// An optional amount as an optional integer.
pub open spec fn optional_amount(o: Option<i64>) -> Option<int> {
    match o {
        Some(v) => Some(v as int),
        None => None,
    }
}

/// The views of the transactions of `s`, in order.
pub open spec fn transaction_views(s: Seq<Transaction>) -> Seq<TransactionView> {
    Seq::new(s.len(), |i: int| s[i]@)
}

/// The view of a result that carries text either way.
pub open spec fn text_result(r: Result<String, String>) -> Result<Seq<char>, Seq<char>> {
    match r {
        Ok(s) => Ok(s@),
        Err(e) => Err(e@),
    }
}

impl View for Transaction {
    type V = TransactionView;

    open spec fn view(&self) -> TransactionView {
        TransactionView {
            posting_date: self.posting_date@,
            transaction_date: self.transaction_date@,
            description: self.description@,
            money_in: optional_amount(self.money_in),
            money_out: optional_amount(self.money_out),
            balance: self.balance as int,
            category: optional_text(self.category),
            transaction_type: self.transaction_type@,
        }
    }
}

impl View for StatementPeriod {
    type V = StatementPeriodView;

    open spec fn view(&self) -> StatementPeriodView {
        StatementPeriodView {
            from_date: self.from_date@,
            to_date: self.to_date@,
            print_date: self.print_date@,
        }
    }
}

impl View for StatementSummary {
    type V = StatementSummaryView;

    open spec fn view(&self) -> StatementSummaryView {
        StatementSummaryView {
            total_income: self.total_income as int,
            total_expenses: self.total_expenses as int,
            balance: self.balance as int,
            start_date: self.start_date@,
            end_date: self.end_date@,
        }
    }
}

impl View for StatementData {
    type V = StatementDataView;

    open spec fn view(&self) -> StatementDataView {
        StatementDataView {
            transactions: transaction_views(self.transactions@),
            summary: self.summary@,
            account_number: self.account_number@,
            statement_period: self.statement_period@,
        }
    }
}

impl TransactionView {
    /// At most one of the two amounts is present.
    pub open spec fn one_sided(self) -> bool {
        !(self.money_in is Some && self.money_out is Some)
    }

    /// Amounts that are present are not negative.
    pub open spec fn non_negative(self) -> bool {
        &&& self.money_in matches Some(v) ==> v >= 0
        &&& self.money_out matches Some(v) ==> v >= 0
    }

    /// The invariant of a ledger entry: one-sided, with non-negative amounts.
    pub open spec fn well_formed(self) -> bool {
        self.one_sided() && self.non_negative()
    }

    /// Whether every number of the entry fits the machine type that holds it.
    pub open spec fn representable(self) -> bool {
        &&& self.money_in matches Some(v) ==> i64::MIN <= v <= i64::MAX
        &&& self.money_out matches Some(v) ==> i64::MIN <= v <= i64::MAX
        &&& i64::MIN <= self.balance <= i64::MAX
    }
}

/// A copy of an optional string.
pub fn copy_optional_text(o: &Option<String>) -> (r: Option<String>)
    ensures
        optional_text(r) == optional_text(*o),
{
    match o {
        Some(s) => Some(s.clone()),
        None => None,
    }
}

} // verus!
