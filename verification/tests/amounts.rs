use statement_ledger::model::Transaction;
use statement_ledger::money::{format_amount, is_ascii_digit, parse_amount, parse_amount_or_zero};
use statement_ledger::sorting::sort_descending;
use statement_ledger::summary::summarize;
use statement_ledger::text::{
    chars_of, is_whitespace, remove_chars, slice_of, split_lines, starts_with, trim,
};

fn parse(s: &str) -> Option<i64> {
    parse_amount(&chars_of(s))
}

fn text(chars: Vec<char>) -> String {
    chars.into_iter().collect()
}

fn entry(money_in: Option<i64>, money_out: Option<i64>, balance: i64) -> Transaction {
    Transaction {
        posting_date: "01/03/2024".to_string(),
        transaction_date: "01/03/2024".to_string(),
        description: "x".to_string(),
        money_in,
        money_out,
        balance,
        category: None,
        transaction_type: "UNKNOWN".to_string(),
    }
}

#[test]
fn amounts_are_read_as_hundredths() {
    assert_eq!(parse("45.00"), Some(4500));
    assert_eq!(parse("1000.00"), Some(100000));
    assert_eq!(parse("-150.00"), Some(-15000));
    assert_eq!(parse("+7.5"), Some(750));
    assert_eq!(parse("12"), Some(1200));
    assert_eq!(parse("12."), Some(1200));
    assert_eq!(parse(".5"), Some(50));
    assert_eq!(parse("0.07"), Some(7));
    assert_eq!(parse("-0.00"), Some(0));
    assert_eq!(parse("007.10"), Some(710));
}

#[test]
fn what_is_no_amount() {
    for s in ["", ".", "-", "+", "-.", "1.234", "1,000.00", "1 000", "abc", "1e3", "--1", "1.2.3", " 1", "١٢"]
    {
        assert_eq!(parse(s), None, "{}", s);
        assert_eq!(parse_amount_or_zero(&chars_of(s)), 0);
    }
}

#[test]
fn amounts_at_the_edge_of_the_range() {
    assert_eq!(parse("92233720368547758.07"), Some(i64::MAX));
    assert_eq!(parse("92233720368547758.08"), None);
    assert_eq!(parse("-92233720368547758.08"), Some(i64::MIN));
    assert_eq!(parse("-92233720368547758.09"), None);
    assert_eq!(parse("92233720368547759"), None);
    assert_eq!(parse("99999999999999999999999999999999.99"), None);
}

#[test]
fn amounts_are_written_with_two_decimals() {
    assert_eq!(text(format_amount(4500)), "45.00");
    assert_eq!(text(format_amount(-15000)), "-150.00");
    assert_eq!(text(format_amount(0)), "0.00");
    assert_eq!(text(format_amount(7)), "0.07");
    assert_eq!(text(format_amount(-7)), "-0.07");
    assert_eq!(text(format_amount(i64::MAX)), "92233720368547758.07");
    assert_eq!(text(format_amount(i64::MIN)), "-92233720368547758.08");
}

#[test]
fn written_amounts_read_back() {
    for c in [0, 1, -1, 99, 100, -100, 123456, -987654321, i64::MAX, i64::MIN] {
        assert_eq!(parse_amount(&format_amount(c)), Some(c));
    }
}

#[test]
fn digits_and_white_space() {
    assert!(is_ascii_digit('0') && is_ascii_digit('9'));
    assert!(!is_ascii_digit('a') && !is_ascii_digit('/') && !is_ascii_digit(':'));
    for c in [' ', '\t', '\n', '\r', '\u{0B}', '\u{0C}', '\u{85}', '\u{A0}', '\u{1680}', '\u{2003}', '\u{2028}', '\u{3000}'] {
        assert!(is_whitespace(c));
        assert!(c.is_whitespace());
    }
    for c in ['a', '0', '\u{200B}', '\u{FEFF}', '_'] {
        assert!(!is_whitespace(c));
        assert!(!c.is_whitespace());
    }
}

#[test]
fn trimming_and_slicing() {
    assert_eq!(text(trim(&chars_of("  a b \t\r\n"))), "a b");
    assert_eq!(text(trim(&chars_of("\u{A0}x\u{3000}"))), "x");
    assert_eq!(text(trim(&chars_of("   "))), "");
    assert_eq!(text(trim(&chars_of(""))), "");
    assert_eq!(text(slice_of(&chars_of("statement"), 2, 5)), "ate");
    assert_eq!(chars_of("héllo").len(), 5);
}

#[test]
fn lines_are_split_at_newlines() {
    let lines: Vec<String> = split_lines(&chars_of("a\n\nb c\r\nd\n")).into_iter().map(text).collect();
    assert_eq!(lines, vec!["a", "", "b c\r", "d", ""]);
    assert_eq!(split_lines(&chars_of("")).len(), 1);
}

#[test]
fn prefixes_and_removal() {
    assert!(starts_with(&chars_of("Available Balance: 1"), &chars_of("Available Balance:")));
    assert!(!starts_with(&chars_of("Avail"), &chars_of("Available")));
    assert!(starts_with(&chars_of("x"), &chars_of("")));
    assert_eq!(text(remove_chars(&chars_of("1 234,567.89"), ',', ' ')), "1234567.89");
    assert_eq!(text(remove_chars(&chars_of("1 234,567.89"), ',', ',')), "1 234567.89");
}

#[test]
fn totals_are_sums_of_the_sides() {
    let ts = vec![
        entry(Some(1000), None, 5000),
        entry(None, Some(250), 4750),
        entry(None, None, 4750),
        entry(None, Some(-300), 4450),
        entry(Some(5), Some(7), 4448),
    ];
    let s = summarize(&ts, "a", "b");
    assert_eq!(s.total_income, 1005);
    assert_eq!(s.total_expenses, 250 + 300 + 7);
    assert_eq!(s.balance, 4448);
    assert_eq!(s.start_date, "a");
    assert_eq!(s.end_date, "b");
    let none = summarize(&vec![], "", "");
    assert_eq!((none.total_income, none.total_expenses, none.balance), (0, 0, 0));
}

#[test]
fn totals_do_not_overflow() {
    let ts = vec![entry(Some(i64::MAX), Some(i64::MIN), 0), entry(Some(i64::MAX), Some(i64::MIN), 1)];
    let s = summarize(&ts, "", "");
    assert_eq!(s.total_income, 2 * (i64::MAX as i128));
    assert_eq!(s.total_expenses, 2 * (1i128 << 63));
}

#[test]
fn sort_is_descending_and_stable() {
    let sorted = sort_descending(vec![(1, "a"), (3, "b"), (2, "c"), (3, "d"), (1, "e"), (-5, "f")]);
    assert_eq!(sorted, vec!["b", "d", "c", "a", "e", "f"]);
    assert_eq!(sort_descending(Vec::<(i128, u8)>::new()), Vec::<u8>::new());
}
