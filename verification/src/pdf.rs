//! Reading a statement out of the text of a typeset document.
//!
//! The text is searched three times: for the account number, for the statement period, and
//! line by line for transactions. The patterns are matched by the `regex` crate.

use crate::ledger::{all_well_formed, is_ordered_ledger, order_by_posting_date};
use crate::model::{
    text_result, transaction_views, StatementData, StatementDataView,
    StatementPeriod, StatementPeriodView, Transaction, TransactionView, CREDIT, DEBIT,
};
use crate::money::{amount_of, amount_or_zero, parse_amount, parse_amount_or_zero};
use crate::pattern::{
    capture, captures_in, compile, found_view, group, group_text, groups_view, regex_captures,
    regex_compile_error, search, search_view, Groups, Matcher, Search,
};
use crate::summary::{summarize, summary_of};
use crate::text::{
    begins_with, char_views_of, chars_of, lines_of, remove_chars, split_lines, starts_with,
    string_from_chars, trim, trimmed, without,
};
use vstd::prelude::*;
use vstd::string::StringExecFns;

verus! {

/// Finds the account number: the label, then digits.
pub const ACCOUNT_NUMBER_PATTERN: &'static str = r"Account\s*Number:\s*(\d+)";

/// Finds the three dates of the period with any text between them.
pub const LOOSE_PERIOD_PATTERN: &'static str =
    r"From Date:\s*(\d{2}/\d{2}/\d{4}).*?To Date:\s*(\d{2}/\d{2}/\d{4}).*?Print Date:\s*(\d{2}/\d{2}/\d{4})";

/// Finds the three dates of the period with nothing but white space between them.
pub const LABELED_PERIOD_PATTERN: &'static str =
    r"From\s+Date:\s*(\d{2}/\d{2}/\d{4})\s*To\s+Date:\s*(\d{2}/\d{2}/\d{4})\s*Print\s+Date:\s*(\d{2}/\d{2}/\d{4})";

/// Finds a transaction in a line: posting date, an optional second date, a description that
/// does not begin with a digit, a signed amount with two decimals, and a balance with two
/// decimals whose thousands may be set apart by spaces or commas.
pub const TRANSACTION_PATTERN: &'static str =
    r"(\d{2}/\d{2}/\d{4})\s+(?:(\d{2}/\d{2}/\d{4})\s+)?([^0-9\n].*?)\s+(-\d+\.\d{2}|\d+\.\d{2})\s+(\d+(?:[\s,]\d{3})*\.\d{2})";

/// A line that begins so states the available balance and is no transaction.
pub const AVAILABLE_BALANCE_PREFIX: &'static str = "Available Balance:";

/// Said where the account number pattern does not compile.
pub const ACCOUNT_PATTERN_FAILED: &'static str = "Failed to create account number regex";

/// Said of a text that names no account number.
pub const ACCOUNT_NUMBER_MISSING: &'static str = "Could not find account number";

/// Said where the loose period pattern does not compile.
pub const PERIOD_PATTERN_FAILED: &'static str = "Failed to create statement period regex";

/// Said where the labeled period pattern does not compile.
pub const LABELED_PATTERN_FAILED: &'static str =
    "Failed to create alternative statement period regex";

/// Said of a text that holds the period in neither form.
pub const PERIOD_MISSING: &'static str = "Could not find statement period in expected format";

/// Said, before the reason, where the transaction pattern does not compile.
pub const TRANSACTION_PATTERN_FAILED: &'static str = "Failed to create transaction regex: ";

/// Said of a text in which no line holds a transaction.
pub const NO_TRANSACTIONS: &'static str = "No transactions found in the statement";

/// The account number that a search for it yields: group 1 of the match.
pub open spec fn account_number_of(found: Search) -> Result<Seq<char>, Seq<char>> {
    match found {
        Err(_) => Err(ACCOUNT_PATTERN_FAILED@),
        Ok(None) => Err(ACCOUNT_NUMBER_MISSING@),
        Ok(Some(groups)) => match group(groups, 1) {
            Some(number) => Ok(number),
            None => Err(ACCOUNT_NUMBER_MISSING@),
        },
    }
}

/// The period that the groups of a match hold: groups 1 to 3, all of which must be there.
pub open spec fn period_of_groups(groups: Groups) -> Option<StatementPeriodView> {
    match (group(groups, 1), group(groups, 2), group(groups, 3)) {
        (Some(from), Some(to), Some(print)) => Some(
            StatementPeriodView { from_date: from, to_date: to, print_date: print },
        ),
        _ => None,
    }
}

/// The period that the two searches yield: that of the loose pattern where it matches, else
/// that of the labeled pattern.
pub open spec fn period_of(loose: Search, labeled: Search) -> Result<
    StatementPeriodView,
    Seq<char>,
> {
    match loose {
        Err(_) => Err(PERIOD_PATTERN_FAILED@),
        Ok(Some(groups)) => match period_of_groups(groups) {
            Some(p) => Ok(p),
            None => Err(PERIOD_MISSING@),
        },
        Ok(None) => match labeled {
            Err(_) => Err(LABELED_PATTERN_FAILED@),
            Ok(Some(groups)) => match period_of_groups(groups) {
                Some(p) => Ok(p),
                None => Err(PERIOD_MISSING@),
            },
            Ok(None) => Err(PERIOD_MISSING@),
        },
    }
}

/// The signed amount of a transaction line: what the text denotes, and zero where it denotes
/// nothing or a number whose magnitude no `i64` holds.
pub open spec fn line_amount(text: Seq<char>) -> int {
    match amount_of(text) {
        Some(v) => if v == i64::MIN {
            0
        } else {
            v as int
        },
        None => 0,
    }
}

/// The transaction that the groups of a matched line hold.
///
/// Group 1 is the posting date, group 2 the transaction date (the posting date where it is
/// absent), group 3 the description, group 4 the signed amount, group 5 the balance. Commas
/// are dropped from the amount, commas and spaces from the balance. A positive amount came in
/// and makes a credit; a negative amount went out, by its magnitude, and makes a debit; a zero
/// amount sets neither side and is typed as a debit.
pub open spec fn line_transaction(groups: Groups) -> Option<TransactionView> {
    match (group(groups, 1), group(groups, 3), group(groups, 5)) {
        (Some(posting), Some(description), Some(balance)) => {
            let amount = match group(groups, 4) {
                Some(a) => line_amount(without(a, ',', ',')),
                None => 0,
            };
            Some(
                TransactionView {
                    posting_date: posting,
                    transaction_date: match group(groups, 2) {
                        Some(d) => d,
                        None => posting,
                    },
                    description: trimmed(description),
                    money_in: if amount > 0 {
                        Some(amount)
                    } else {
                        None
                    },
                    money_out: if amount < 0 {
                        Some(-amount)
                    } else {
                        None
                    },
                    balance: amount_or_zero(without(balance, ',', ' ')),
                    category: None,
                    transaction_type: if amount > 0 {
                        CREDIT@
                    } else {
                        DEBIT@
                    },
                },
            )
        },
        _ => None,
    }
}

/// Why a line is passed over without a search.
#[derive(Debug, Clone, Copy, PartialEq, Eq, Structural)]
pub enum SkipReason {
    /// The line is empty or white space only.
    Blank,
    /// The line begins with `*`.
    Starred,
    /// The line states the available balance.
    AvailableBalance,
}

/// What a line of a statement's text is.
#[derive(Debug, Clone, PartialEq, Eq)]
pub enum LineClass {
    /// The line holds this transaction.
    Transaction(Transaction),
    /// The line was passed over without a search.
    Skipped(SkipReason),
    /// The line was searched and holds no transaction.
    Noise,
}

/// The value of a [`LineClass`].
pub enum LineView {
    Transaction(TransactionView),
    Skipped(SkipReason),
    Noise,
}

impl View for LineClass {
    type V = LineView;

    open spec fn view(&self) -> LineView {
        match self {
            LineClass::Transaction(t) => LineView::Transaction(t@),
            LineClass::Skipped(reason) => LineView::Skipped(*reason),
            LineClass::Noise => LineView::Noise,
        }
    }
}

/// Why a trimmed line is passed over without a search: it is blank, begins with `*`, or
/// states the available balance. `None` where the line is to be searched.
pub open spec fn skip_reason(line: Seq<char>) -> Option<SkipReason> {
    if line.len() == 0 {
        Some(SkipReason::Blank)
    } else if line[0] == '*' {
        Some(SkipReason::Starred)
    } else if begins_with(line, AVAILABLE_BALANCE_PREFIX@) {
        Some(SkipReason::AvailableBalance)
    } else {
        None
    }
}

/// What a searched line is, given what the search found: a transaction where the pattern
/// matches and the match has its groups, else noise.
pub open spec fn searched_line(found: Option<Groups>) -> LineView {
    match found {
        None => LineView::Noise,
        Some(groups) => match line_transaction(groups) {
            Some(t) => LineView::Transaction(t),
            None => LineView::Noise,
        },
    }
}

/// What a line is under a pattern. The line is trimmed first; the search is made only where
/// the line is not passed over.
pub open spec fn classified(pattern: Seq<char>, line: Seq<char>) -> LineView {
    match skip_reason(trimmed(line)) {
        Some(reason) => LineView::Skipped(reason),
        None => searched_line(regex_captures(pattern, trimmed(line))),
    }
}

/// What each of the lines is, in order.
pub open spec fn classified_all(pattern: Seq<char>, lines: Seq<Seq<char>>) -> Seq<LineView> {
    Seq::new(lines.len(), |i: int| classified(pattern, lines[i]))
}

/// The transactions among the classes, in order.
pub open spec fn transactions_of(classes: Seq<LineView>) -> Seq<TransactionView>
    decreases classes.len(),
{
    if classes.len() == 0 {
        Seq::empty()
    } else {
        let before = transactions_of(classes.drop_last());
        match classes.last() {
            LineView::Transaction(t) => before.push(t),
            _ => before,
        }
    }
}

/// The transactions found in `lines` under a pattern, in the order of the lines: those of
/// the lines that hold one. Skipped lines and noise add nothing.
pub open spec fn scanned(pattern: Seq<char>, lines: Seq<Seq<char>>) -> Seq<TransactionView> {
    transactions_of(classified_all(pattern, lines))
}

/// The transactions of a statement's text, in the order of its lines.
pub open spec fn found_in(text: Seq<char>) -> Seq<TransactionView> {
    scanned(TRANSACTION_PATTERN@, lines_of(text))
}

/// Whether `data` is the statement made of the given parts, with its summary derived from the
/// transactions and the period.
pub open spec fn is_statement(
    data: StatementDataView,
    transactions: Seq<TransactionView>,
    account_number: Seq<char>,
    period: StatementPeriodView,
) -> bool {
    &&& data.transactions == transactions
    &&& data.account_number == account_number
    &&& data.statement_period == period
    &&& data.summary == summary_of(transactions, period.from_date, period.to_date)
}

/// A transaction read from a line takes one side at most, and never a negative amount.
pub proof fn lemma_line_transaction_well_formed(groups: Groups)
    ensures
        line_transaction(groups) matches Some(t) ==> t.well_formed() && t.representable(),
{
}

/// Every transaction among the classes of lines takes one side at most, and never a
/// negative amount.
pub proof fn lemma_scanned_well_formed(pattern: Seq<char>, lines: Seq<Seq<char>>)
    ensures
        all_well_formed(scanned(pattern, lines)),
    decreases lines.len(),
{
    if lines.len() > 0 {
        lemma_scanned_well_formed(pattern, lines.drop_last());
        assert(classified_all(pattern, lines).drop_last() == classified_all(
            pattern,
            lines.drop_last(),
        ));
    }
}

/// The classes of one line more are the classes so far and the class of that line.
proof fn lemma_classified_step(pattern: Seq<char>, lines: Seq<Seq<char>>, i: int)
    requires
        0 <= i < lines.len(),
    ensures
        classified_all(pattern, lines.take(i + 1)) == classified_all(pattern, lines.take(i)).push(
            classified(pattern, lines[i]),
        ),
        classified_all(pattern, lines.take(i + 1)).drop_last() == classified_all(
            pattern,
            lines.take(i),
        ),
{
    let next = classified_all(pattern, lines.take(i + 1));
    let before = classified_all(pattern, lines.take(i));
    assert(next =~= before.push(classified(pattern, lines[i])));
    assert(next.drop_last() =~= before);
}

/// Takes the account number out of the result of the search for it.
pub fn account_number_from(found: Result<Option<Vec<Option<String>>>, String>) -> (r: Result<
    String,
    String,
>)
    ensures
        text_result(r) == account_number_of(search_view(found)),
{
    match found {
        Err(_) => Err(ACCOUNT_PATTERN_FAILED.to_string()),
        Ok(None) => Err(ACCOUNT_NUMBER_MISSING.to_string()),
        Ok(Some(groups)) => match group_text(&groups, 1) {
            Some(number) => Ok(number),
            None => Err(ACCOUNT_NUMBER_MISSING.to_string()),
        },
    }
}

/// Finds the account number in the text of a statement: the digits that follow the first
/// `Account Number:` label. A text without one is refused.
pub fn extract_account_number(text: &str) -> (r: Result<String, String>)
    ensures
        text_result(r) == account_number_of(search(ACCOUNT_NUMBER_PATTERN@, text@)),
{
    account_number_from(capture(ACCOUNT_NUMBER_PATTERN, text))
}

/// Takes the three dates of the period out of the groups of a match.
pub fn period_from_groups(groups: &Vec<Option<String>>) -> (r: Option<StatementPeriod>)
    ensures
        (match r {
            Some(p) => Some(p@),
            None => None,
        }) == period_of_groups(groups_view(groups@)),
{
    match (group_text(groups, 1), group_text(groups, 2), group_text(groups, 3)) {
        (Some(from_date), Some(to_date), Some(print_date)) => Some(
            StatementPeriod { from_date, to_date, print_date },
        ),
        _ => None,
    }
}

/// Takes the period out of the results of the two searches for it.
pub fn statement_period_from(
    loose: Result<Option<Vec<Option<String>>>, String>,
    labeled: Result<Option<Vec<Option<String>>>, String>,
) -> (r: Result<StatementPeriod, String>)
    ensures
        period_result(r) == period_of(search_view(loose), search_view(labeled)),
{
    match loose {
        Err(_) => Err(PERIOD_PATTERN_FAILED.to_string()),
        Ok(Some(groups)) => match period_from_groups(&groups) {
            Some(p) => Ok(p),
            None => Err(PERIOD_MISSING.to_string()),
        },
        Ok(None) => match labeled {
            Err(_) => Err(LABELED_PATTERN_FAILED.to_string()),
            Ok(Some(groups)) => match period_from_groups(&groups) {
                Some(p) => Ok(p),
                None => Err(PERIOD_MISSING.to_string()),
            },
            Ok(None) => Err(PERIOD_MISSING.to_string()),
        },
    }
}

/// The view of a period or an error text.
pub open spec fn period_result(r: Result<StatementPeriod, String>) -> Result<
    StatementPeriodView,
    Seq<char>,
> {
    match r {
        Ok(p) => Ok(p@),
        Err(e) => Err(e@),
    }
}

/// Finds the statement period in the text of a statement: the dates after `From Date:`,
/// `To Date:` and `Print Date:`, first with any text between the three, then with white space
/// only. A text that holds the period in neither form is refused.
pub fn extract_statement_period(text: &str) -> (r: Result<StatementPeriod, String>)
    ensures
        period_result(r) == period_of(
            search(LOOSE_PERIOD_PATTERN@, text@),
            search(LABELED_PERIOD_PATTERN@, text@),
        ),
{
    let loose = capture(LOOSE_PERIOD_PATTERN, text);
    match loose {
        Ok(None) => statement_period_from(Ok(None), capture(LABELED_PERIOD_PATTERN, text)),
        _ => statement_period_from(loose, Ok(None)),
    }
}

/// Reads the signed amount of a transaction line.
fn read_line_amount(text: &String) -> (r: i64)
    ensures
        r == line_amount(without(text@, ',', ',')),
        r > i64::MIN,
{
    let bare = remove_chars(&chars_of(text.as_str()), ',', ',');
    match parse_amount(&bare) {
        Some(v) => if v == i64::MIN {
            0
        } else {
            v
        },
        None => 0,
    }
}

/// Builds the transaction of a matched line from the groups of the match.
///
/// `None` where the posting date, the description or the balance is missing; a match of the
/// transaction pattern has all three.
pub fn transaction_from_groups(groups: &Vec<Option<String>>) -> (r: Option<Transaction>)
    ensures
        (match r {
            Some(t) => Some(t@),
            None => None,
        }) == line_transaction(groups_view(groups@)),
        r matches Some(t) ==> t@.well_formed(),
{
    match (group_text(groups, 1), group_text(groups, 3), group_text(groups, 5)) {
        (Some(posting), Some(description), Some(balance)) => {
            let amount: i64 = match group_text(groups, 4) {
                Some(a) => read_line_amount(&a),
                None => 0,
            };
            let transaction_date = match group_text(groups, 2) {
                Some(d) => d,
                None => posting.clone(),
            };
            let balance_text = remove_chars(&chars_of(balance.as_str()), ',', ' ');
            let balance_value: i64 = parse_amount_or_zero(&balance_text);
            let description = string_from_chars(&trim(&chars_of(description.as_str())));
            Some(
                Transaction {
                    posting_date: posting,
                    transaction_date,
                    description,
                    money_in: if amount > 0 {
                        Some(amount)
                    } else {
                        None
                    },
                    money_out: if amount < 0 {
                        Some(-amount)
                    } else {
                        None
                    },
                    balance: balance_value,
                    category: None,
                    transaction_type: if amount > 0 {
                        CREDIT.to_string()
                    } else {
                        DEBIT.to_string()
                    },
                },
            )
        },
        _ => None,
    }
}

/// Why a trimmed line is passed over without a search, `None` where it is to be searched.
pub fn skip_reason_of(line: &Vec<char>) -> (r: Option<SkipReason>)
    ensures
        r == skip_reason(line@),
{
    if line.len() == 0 {
        Some(SkipReason::Blank)
    } else if line[0] == '*' {
        Some(SkipReason::Starred)
    } else if starts_with(line, &chars_of(AVAILABLE_BALANCE_PREFIX)) {
        Some(SkipReason::AvailableBalance)
    } else {
        None
    }
}

/// The views of classes, in order.
pub open spec fn class_views(classes: Seq<LineClass>) -> Seq<LineView> {
    Seq::new(classes.len(), |i: int| classes[i]@)
}

/// Says what a searched line is, from what the search found.
pub fn line_class_from(found: Option<Vec<Option<String>>>) -> (r: LineClass)
    ensures
        r@ == searched_line(found_view(found)),
{
    match found {
        None => LineClass::Noise,
        Some(groups) => match transaction_from_groups(&groups) {
            Some(t) => LineClass::Transaction(t),
            None => LineClass::Noise,
        },
    }
}

/// Says what a line is under the matcher's pattern: a transaction, a line passed over, or
/// noise. A line that holds no transaction is no error.
fn classify_line(matcher: &Matcher, line: &Vec<char>) -> (r: LineClass)
    ensures
        r@ == classified(matcher.source(), line@),
{
    let bare = trim(line);
    match skip_reason_of(&bare) {
        Some(reason) => LineClass::Skipped(reason),
        None => {
            let haystack = string_from_chars(&bare);
            line_class_from(captures_in(matcher, haystack.as_str()))
        },
    }
}

/// The message for a transaction pattern that does not compile.
fn pattern_failure(reason: String) -> (m: String)
    ensures
        m@ == TRANSACTION_PATTERN_FAILED@ + reason@,
{
    String::from_str(TRANSACTION_PATTERN_FAILED).concat(reason.as_str())
}

/// Says what each line of a text is, in the order of the lines. Fails only where the
/// transaction pattern does not compile.
pub fn classify_lines(text: &str) -> (r: Result<Vec<LineClass>, String>)
    ensures
        match regex_compile_error(TRANSACTION_PATTERN@) {
            Some(e) => r is Err && r->Err_0@ == TRANSACTION_PATTERN_FAILED@ + e,
            None => r is Ok && class_views(r->Ok_0@) == classified_all(
                TRANSACTION_PATTERN@,
                lines_of(text@),
            ),
        },
{
    let matcher = match compile(TRANSACTION_PATTERN) {
        Ok(matcher) => matcher,
        Err(e) => {
            return Err(pattern_failure(e));
        },
    };
    let lines = split_lines(&chars_of(text));
    let ghost all = lines_of(text@);
    let ghost pattern = TRANSACTION_PATTERN@;
    let mut classes: Vec<LineClass> = Vec::new();
    let mut i: usize = 0;
    while i < lines.len()
        invariant
            i <= lines.len(),
            classes.len() == i,
            all == char_views_of(lines@),
            matcher.source() == pattern,
            forall|j: int| 0 <= j < i ==> (#[trigger] classes@[j])@ == classified(pattern, all[j]),
        decreases lines.len() - i,
    {
        classes.push(classify_line(&matcher, &lines[i]));
        i += 1;
    }
    proof {
        assert(class_views(classes@) =~= classified_all(pattern, all));
    }
    Ok(classes)
}

/// Collects the transactions of lines under the matcher's pattern, in the order of the lines.
fn scan_with(matcher: &Matcher, lines: &Vec<Vec<char>>) -> (found: Vec<Transaction>)
    ensures
        transaction_views(found@) == scanned(matcher.source(), char_views_of(lines@)),
{
    let ghost all = char_views_of(lines@);
    let ghost pattern = matcher.source();
    let mut found: Vec<Transaction> = Vec::new();
    let mut i: usize = 0;
    proof {
        assert(transaction_views(found@) =~= Seq::<TransactionView>::empty());
        assert(classified_all(pattern, all.take(0)) =~= Seq::<LineView>::empty());
    }
    while i < lines.len()
        invariant
            i <= lines.len(),
            all == char_views_of(lines@),
            pattern == matcher.source(),
            transaction_views(found@) == scanned(pattern, all.take(i as int)),
        decreases lines.len() - i,
    {
        proof {
            lemma_classified_step(pattern, all, i as int);
            assert(all[i as int] == lines@[i as int]@);
        }
        match classify_line(matcher, &lines[i]) {
            LineClass::Transaction(t) => {
                let ghost before = found@;
                found.push(t);
                assert(transaction_views(found@) =~= transaction_views(before).push(t@));
            },
            _ => {},
        }
        i += 1;
    }
    proof {
        assert(all.take(i as int) == all);
    }
    found
}

/// Collects the transactions of a text, line by line, in the order of the lines. Fails only
/// where the transaction pattern does not compile.
pub fn scan_transactions(text: &str) -> (r: Result<Vec<Transaction>, String>)
    ensures
        match regex_compile_error(TRANSACTION_PATTERN@) {
            Some(e) => r is Err && r->Err_0@ == TRANSACTION_PATTERN_FAILED@ + e,
            None => r is Ok && transaction_views(r->Ok_0@) == found_in(text@),
        },
{
    match compile(TRANSACTION_PATTERN) {
        Ok(matcher) => Ok(scan_with(&matcher, &split_lines(&chars_of(text)))),
        Err(e) => Err(pattern_failure(e)),
    }
}

/// Reads the transactions of a statement text, most recent posting date first.
///
/// Lines are trimmed; blank lines, lines that begin with `*` and lines that state the
/// available balance are skipped, and lines that do not hold a transaction are dropped without
/// complaint. A text without any transaction is refused. The result is ordered by descending
/// posting date; transactions of one day, and those whose posting date cannot be read (which
/// rank as the first day of 1970), keep the order of their lines.
pub fn parse_capitec_transactions(text: &str) -> (r: Result<Vec<Transaction>, String>)
    ensures
        is_ledger_outcome(text@, scan_result(r)),
        r matches Ok(sorted) ==> sorted.len() > 0 && all_well_formed(transaction_views(sorted@)),
{
    match scan_transactions(text) {
        Err(e) => Err(e),
        Ok(found) => {
            if found.len() == 0 {
                return Err(NO_TRANSACTIONS.to_string());
            }
            proof {
                lemma_scanned_well_formed(TRANSACTION_PATTERN@, lines_of(text@));
            }
            Ok(order_by_posting_date(found))
        },
    }
}

/// The view of transactions or an error text.
pub open spec fn scan_result(r: Result<Vec<Transaction>, String>) -> Result<
    Seq<TransactionView>,
    Seq<char>,
> {
    match r {
        Ok(v) => Ok(transaction_views(v@)),
        Err(e) => Err(e@),
    }
}

/// Whether `r` is what reading the transactions of a statement's text gives: the failure of
/// the pattern to compile, a refusal where no line holds a transaction, else the
/// transactions found, by descending posting date.
pub open spec fn is_ledger_outcome(text: Seq<char>, r: Result<Seq<TransactionView>, Seq<char>>)
    -> bool {
    match regex_compile_error(TRANSACTION_PATTERN@) {
        Some(e) => r == Err::<Seq<TransactionView>, Seq<char>>(TRANSACTION_PATTERN_FAILED@ + e),
        None => if found_in(text).len() == 0 {
            r == Err::<Seq<TransactionView>, Seq<char>>(NO_TRANSACTIONS@)
        } else {
            r matches Ok(sorted) && is_ordered_ledger(found_in(text), sorted)
        },
    }
}

/// Whether `r` is what reading the text of a typeset document gives.
///
/// The account number is sought first, then the period, then the transactions, and the first
/// of the three that fails gives the error. A statement holds the transactions by descending
/// posting date, the account number, the period, and the summary of the transactions over
/// the period.
pub open spec fn is_pdf_outcome(text: Seq<char>, r: Result<StatementDataView, Seq<char>>) -> bool {
    match account_number_of(search(ACCOUNT_NUMBER_PATTERN@, text)) {
        Err(e) => r == Err::<StatementDataView, Seq<char>>(e),
        Ok(number) => match period_of(
            search(LOOSE_PERIOD_PATTERN@, text),
            search(LABELED_PERIOD_PATTERN@, text),
        ) {
            Err(e) => r == Err::<StatementDataView, Seq<char>>(e),
            Ok(period) => match regex_compile_error(TRANSACTION_PATTERN@) {
                Some(e) => r == Err::<StatementDataView, Seq<char>>(TRANSACTION_PATTERN_FAILED@ + e),
                None => if found_in(text).len() == 0 {
                    r == Err::<StatementDataView, Seq<char>>(NO_TRANSACTIONS@)
                } else {
                    r matches Ok(data) && is_ordered_ledger(found_in(text), data.transactions)
                        && is_statement(data, data.transactions, number, period)
                },
            },
        },
    }
}

/// The view of a statement or an error text.
pub open spec fn statement_result(r: Result<StatementData, String>) -> Result<
    StatementDataView,
    Seq<char>,
> {
    match r {
        Ok(d) => Ok(d@),
        Err(e) => Err(e@),
    }
}

/// Reads a whole statement from the text of a typeset document.
///
/// The account number is sought first, then the period, then the transactions; the first of
/// the three that fails gives the error. The summary's span is the period's, its totals are
/// those of the transactions, and its balance is that of the last transaction in the order
/// handed out (the oldest).
pub fn process_pdf_content(text: &str) -> (r: Result<StatementData, String>)
    ensures
        is_pdf_outcome(text@, statement_result(r)),
        r matches Ok(data) ==> all_well_formed(data@.transactions),
{
    let account_number = match extract_account_number(text) {
        Ok(n) => n,
        Err(e) => {
            return Err(e);
        },
    };
    let statement_period = match extract_statement_period(text) {
        Ok(p) => p,
        Err(e) => {
            return Err(e);
        },
    };
    let transactions = match parse_capitec_transactions(text) {
        Ok(t) => t,
        Err(e) => {
            return Err(e);
        },
    };
    let summary = summarize(
        &transactions,
        statement_period.from_date.as_str(),
        statement_period.to_date.as_str(),
    );
    Ok(StatementData { transactions, summary, account_number, statement_period })
}

} // verus!
