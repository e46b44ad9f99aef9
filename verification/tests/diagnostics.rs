use statement_ledger::csv_import::{defaulted_fields, read_number, Reading};
use statement_ledger::model::Transaction;
use statement_ledger::pattern::capture;
use statement_ledger::pdf::{classify_lines, line_class_from, skip_reason_of, LineClass, SkipReason};
use statement_ledger::sql::SqlValue;
use statement_ledger::store::store_statement_data;
use statement_ledger::text::chars_of;

fn record(fields: &[&str]) -> Vec<String> {
    fields.iter().map(|f| f.to_string()).collect()
}

#[test]
fn every_line_gets_a_tag() {
    let text = "\n  * note\nAvailable Balance: 1.00\n01/03/2024 Tea -2.00 8.00\nhello\n   ";
    let classes = classify_lines(text).unwrap();
    assert_eq!(classes.len(), 6);
    assert_eq!(classes[0], LineClass::Skipped(SkipReason::Blank));
    assert_eq!(classes[1], LineClass::Skipped(SkipReason::Starred));
    assert_eq!(classes[2], LineClass::Skipped(SkipReason::AvailableBalance));
    assert!(matches!(&classes[3], LineClass::Transaction(t) if t.description == "Tea"));
    assert_eq!(classes[4], LineClass::Noise);
    assert_eq!(classes[5], LineClass::Skipped(SkipReason::Blank));
    let skipped = classes.iter().filter(|c| matches!(c, LineClass::Skipped(_))).count();
    assert_eq!(skipped, 4);
}

#[test]
fn one_line_at_a_time() {
    assert_eq!(classify_lines(" \t "), Ok(vec![LineClass::Skipped(SkipReason::Blank)]));
    assert_eq!(classify_lines("12 apples"), Ok(vec![LineClass::Noise]));
    assert_eq!(skip_reason_of(&chars_of("*")), Some(SkipReason::Starred));
    assert_eq!(skip_reason_of(&chars_of("x*")), None);
    assert_eq!(line_class_from(None), LineClass::Noise);
    assert_eq!(line_class_from(Some(vec![Some("whole".to_string())])), LineClass::Noise);
    let groups = vec![
        Some("w".to_string()),
        Some("01/03/2024".to_string()),
        None,
        Some("Tea".to_string()),
        Some("-2.00".to_string()),
        Some("8.00".to_string()),
    ];
    assert!(matches!(line_class_from(Some(groups)), LineClass::Transaction(t) if t.money_out == Some(200)));
}

#[test]
fn searching_with_a_pattern() {
    assert_eq!(
        capture("(a+)(b)?", "xaab"),
        Ok(Some(vec![Some("aab".to_string()), Some("aa".to_string()), Some("b".to_string())]))
    );
    assert_eq!(
        capture("(a+)(b)?", "xaac"),
        Ok(Some(vec![Some("aa".to_string()), Some("aa".to_string()), None]))
    );
    assert_eq!(capture("(a+)(b)?", "xyz"), Ok(None));
    let refused = capture("(a", "a").unwrap_err();
    assert!(refused.contains("unclosed group"));
}

#[test]
fn defaulted_fields_are_counted() {
    let good = record(&["", "", "d", "d", "x", "", "c", "1.00", "2.00", "", "3.00"]);
    let one_sided = record(&["", "", "d", "d", "x", "", "c", "", "2.00", "", "3.00"]);
    let eight = record(&["", "", "d", "d", "x", "", "c", "oops"]);
    let short = record(&["a", "b"]);
    assert_eq!(read_number(&good, 7), Reading::Parsed(100));
    assert_eq!(read_number(&one_sided, 7), Reading::Defaulted);
    assert_eq!(read_number(&eight, 10), Reading::Defaulted);
    assert_eq!(defaulted_fields(&vec![]), 0);
    assert_eq!(defaulted_fields(&vec![good.clone()]), 0);
    assert_eq!(defaulted_fields(&vec![good, one_sided, eight, short]), 0 + 1 + 3 + 0);
}

#[test]
fn an_import_binds_its_ledger_to_its_statement() {
    let entry = Transaction {
        posting_date: "01/03/2024".to_string(),
        transaction_date: "01/03/2024".to_string(),
        description: "Tea".to_string(),
        money_in: None,
        money_out: Some(200),
        balance: 800,
        category: None,
        transaction_type: "debit".to_string(),
    };
    let import = store_statement_data(
        "u1",
        "/f/march.csv",
        "01/03/2024",
        "31/03/2024",
        &vec![entry.clone(), entry],
    )
    .unwrap();
    let id = SqlValue::Text(import.statement_id.clone());
    assert_eq!(import.commands.len(), 4);
    assert!(import.commands[0].sql.starts_with("INSERT INTO documents"));
    assert!(import.commands[1].sql.starts_with("INSERT INTO statements"));
    assert_eq!(import.commands[0].params[2], SqlValue::Text("march.csv".to_string()));
    assert_eq!(import.commands[1].params[0], id);
    assert_eq!(import.commands[1].params[2], import.commands[0].params[0]);
    for c in &import.commands[2..] {
        assert!(c.sql.starts_with("INSERT INTO transactions"));
        assert_eq!(c.params[1], id);
        assert_eq!(c.params[6], SqlValue::Text("2.00".to_string()));
        assert_eq!(c.params[8], SqlValue::Null);
    }
}
