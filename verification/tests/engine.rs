use rusqlite::{params_from_iter, Connection};
use statement_ledger::atomic::{AtomicWrite, WriteAction};
use statement_ledger::model::Transaction;
use statement_ledger::pdf::process_pdf_content;
use statement_ledger::records::{
    CredentialRow, DocumentRow, StatementRow, TransactionRow, UserRow,
};
use statement_ledger::sql::{schema, SqlCommand, SqlValue};
use statement_ledger::store::{
    authenticate_user, create_user, find_credentials_query, get_statement_transactions,
    get_statement_transactions_query, get_user_documents, get_user_documents_query,
    get_user_statements, get_user_statements_query, get_user_transactions,
    get_user_transactions_query, list_users, list_users_query, store_document_at,
    store_statement, store_statement_data, store_transactions,
};

fn bound(command: &SqlCommand) -> Vec<Option<&str>> {
    command
        .params
        .iter()
        .map(|v| match v {
            SqlValue::Text(s) => Some(s.as_str()),
            SqlValue::Null => None,
        })
        .collect()
}

fn execute(conn: &Connection, command: &SqlCommand) -> rusqlite::Result<usize> {
    conn.execute(&command.sql, params_from_iter(bound(command)))
}

fn run_atomically(conn: &mut Connection, commands: &[SqlCommand]) -> Result<(), String> {
    let tx = conn.transaction().unwrap();
    let mut progress = AtomicWrite::begin(commands.len());
    let mut refusal = None;
    loop {
        match progress.next_action() {
            WriteAction::Execute(i) => {
                let outcome = execute(&tx, &commands[i]);
                progress.record(outcome.is_ok());
                refusal = outcome.err();
            }
            WriteAction::Commit => {
                tx.commit().unwrap();
                return Ok(());
            }
            WriteAction::Rollback => {
                tx.rollback().unwrap();
                return Err(refusal.unwrap().to_string());
            }
        }
    }
}

fn transaction_rows(conn: &Connection, command: &SqlCommand) -> Vec<TransactionRow> {
    let mut statement = conn.prepare(&command.sql).unwrap();
    let rows = statement
        .query_map(params_from_iter(bound(command)), |row| {
            Ok(TransactionRow {
                posting_date: row.get(0)?,
                transaction_date: row.get(1)?,
                description: row.get(2)?,
                money_in: row.get(3)?,
                money_out: row.get(4)?,
                balance: row.get(5)?,
                category: row.get(6)?,
                transaction_type: row.get(7)?,
            })
        })
        .unwrap();
    rows.map(|r| r.unwrap()).collect()
}

fn count(conn: &Connection, table: &str) -> i64 {
    conn.query_row(&format!("SELECT COUNT(*) FROM {}", table), [], |row| row.get(0)).unwrap()
}

fn open() -> Connection {
    let conn = Connection::open_in_memory().unwrap();
    for command in schema() {
        execute(&conn, &command).unwrap();
    }
    conn
}

fn register(conn: &Connection, name: &str, password: &str) -> String {
    let (user, command) = create_user(name, password).unwrap();
    execute(conn, &command).unwrap();
    user.id
}

fn entry(date: &str, description: &str, amount: i64, category: Option<&str>) -> Transaction {
    Transaction {
        posting_date: date.to_string(),
        transaction_date: date.to_string(),
        description: description.to_string(),
        money_in: if amount > 0 { Some(amount) } else { None },
        money_out: if amount < 0 { Some(-amount) } else { None },
        balance: 100000 + amount,
        category: category.map(|c| c.to_string()),
        transaction_type: if amount > 0 { "credit" } else { "debit" }.to_string(),
    }
}

fn sorted(mut ledger: Vec<Transaction>) -> Vec<Transaction> {
    ledger.sort_by(|a, b| format!("{:?}", a).cmp(&format!("{:?}", b)));
    ledger
}

#[test]
fn creating_the_schema_twice_changes_nothing() {
    let conn = open();
    register(&conn, "ann", "pw");
    for command in schema() {
        execute(&conn, &command).unwrap();
    }
    assert_eq!(count(&conn, "users"), 1);
    assert_eq!(count(&conn, "documents"), 0);
    assert_eq!(count(&conn, "statements"), 0);
    assert_eq!(count(&conn, "transactions"), 0);
}

#[test]
fn a_user_name_is_taken_once() {
    let conn = open();
    register(&conn, "ann", "pw");
    let (_, again) = create_user("ann", "other").unwrap();
    let refused = execute(&conn, &again).unwrap_err().to_string();
    assert!(refused.contains("UNIQUE constraint failed: users.username"));
    assert_eq!(count(&conn, "users"), 1);
}

#[test]
fn registered_users_log_in_and_are_listed() {
    let conn = open();
    let id = register(&conn, "ann", "pw");
    let lookup = |name: &str| {
        let command = find_credentials_query(name);
        conn.prepare(&command.sql)
            .unwrap()
            .query_row(params_from_iter(bound(&command)), |row| {
                Ok(CredentialRow {
                    id: row.get(0)?,
                    password_hash: row.get(1)?,
                    created_at: row.get(2)?,
                })
            })
            .ok()
    };
    let user = authenticate_user("ann", "pw", lookup("ann")).unwrap();
    assert_eq!(user.id, id);
    assert_eq!(user.username, "ann");
    let wrong = authenticate_user("ann", "pW", lookup("ann")).unwrap_err();
    let unknown = authenticate_user("bob", "pw", lookup("bob")).unwrap_err();
    assert_eq!(wrong, unknown);
    assert_eq!(wrong.message(), "Authentication failed");

    let command = list_users_query();
    let mut statement = conn.prepare(&command.sql).unwrap();
    let rows: Vec<UserRow> = statement
        .query_map([], |row| {
            Ok(UserRow { id: row.get(0)?, username: row.get(1)?, created_at: row.get(2)? })
        })
        .unwrap()
        .map(|r| r.unwrap())
        .collect();
    assert_eq!(list_users(&rows), Ok(vec![user]));
}

fn documents(conn: &Connection, user: &str) -> Vec<DocumentRow> {
    let command = get_user_documents_query(user);
    let mut statement = conn.prepare(&command.sql).unwrap();
    let rows = statement
        .query_map(params_from_iter(bound(&command)), |row| {
            Ok(DocumentRow {
                id: row.get(0)?,
                filename: row.get(1)?,
                file_path: row.get(2)?,
                uploaded_at: row.get(3)?,
            })
        })
        .unwrap();
    rows.map(|r| r.unwrap()).collect()
}

#[test]
fn a_ledger_comes_back_as_it_was_stored() {
    let mut conn = open();
    let user = register(&conn, "ann", "pw");
    let ledger = vec![
        entry("01/03/2024", "Salary", 1250000, Some("PAY")),
        entry("02/03/2024", "Rent", -400000, Some("")),
        entry("02/03/2024", "Rent", -400000, None),
        entry("2024-03-05", "Refund", 1, None),
    ];
    let import =
        store_statement_data(&user, "/f/march.pdf", "01/03/2024", "31/03/2024", &ledger).unwrap();
    run_atomically(&mut conn, &import.commands).unwrap();
    assert_eq!(count(&conn, "documents"), 1);
    assert_eq!(count(&conn, "statements"), 1);

    let rows = transaction_rows(&conn, &get_statement_transactions_query(&import.statement_id));
    let back = get_statement_transactions(&rows);
    assert_eq!(sorted(back.clone()), sorted(ledger.clone()));
    assert_eq!(back, vec![ledger[1].clone(), ledger[2].clone(), ledger[0].clone(), ledger[3].clone()]);
    let none = transaction_rows(&conn, &get_statement_transactions_query("no such statement"));
    assert!(get_statement_transactions(&none).is_empty());

    let command = get_user_statements_query(&user);
    let mut statement = conn.prepare(&command.sql).unwrap();
    let statements: Vec<StatementRow> = statement
        .query_map(params_from_iter(bound(&command)), |row| {
            Ok(StatementRow {
                id: row.get(0)?,
                user_id: row.get(1)?,
                file_path: row.get(2)?,
                start_date: row.get(3)?,
                end_date: row.get(4)?,
                uploaded_at: row.get(5)?,
            })
        })
        .unwrap()
        .map(|r| r.unwrap())
        .collect();
    let statements = get_user_statements(&statements);
    assert_eq!(statements.len(), 1);
    assert_eq!(statements[0].id, import.statement_id);
    assert_eq!(statements[0].user_id, user);
    assert_eq!(statements[0].file_path, "/f/march.pdf");
    assert_eq!(statements[0].start_date, "01/03/2024");
    assert_eq!(statements[0].end_date, "31/03/2024");
}

#[test]
fn a_parsed_statement_comes_back_as_it_was_parsed() {
    let mut conn = open();
    let user = register(&conn, "ann", "pw");
    let text = "Account Number: 1\nFrom Date: 01/03/2024 To Date: 31/03/2024 Print Date: 02/04/2024\n01/03/2024 Tea -2.00 8.00\n02/03/2024 Pay 10.00 18.00\n02/03/2024 Bus -1.00 17.00";
    let data = process_pdf_content(text).unwrap();
    let import = store_statement_data(
        &user,
        "/f/m.pdf",
        &data.statement_period.from_date,
        &data.statement_period.to_date,
        &data.transactions,
    )
    .unwrap();
    run_atomically(&mut conn, &import.commands).unwrap();
    let rows = transaction_rows(&conn, &get_statement_transactions_query(&import.statement_id));
    assert_eq!(get_statement_transactions(&rows), data.transactions);
}

#[test]
fn documents_are_listed_after_an_import() {
    let mut conn = open();
    let ann = register(&conn, "ann", "pw");
    let bob = register(&conn, "bob", "pw");
    let (uploaded, command) = store_document_at(&ann, "/f/first.pdf").unwrap();
    execute(&conn, &command).unwrap();
    let import = store_statement_data(&ann, "/f/second.csv", "a", "b", &vec![]).unwrap();
    run_atomically(&mut conn, &import.commands).unwrap();
    let (_, command) = store_document_at(&bob, "/f/other.pdf").unwrap();
    execute(&conn, &command).unwrap();

    let listed = get_user_documents(&ann, &documents(&conn, &ann)).unwrap();
    assert_eq!(listed.len(), 2);
    assert!(listed.iter().all(|d| d.user_id == ann));
    assert!(listed.iter().any(|d| d == &uploaded));
    let imported = listed.iter().find(|d| d.file_path == "/f/second.csv").unwrap();
    assert_eq!(imported.filename, "second.csv");
    assert!(listed[0].uploaded_at >= listed[1].uploaded_at);
    assert_eq!(get_user_documents(&bob, &documents(&conn, &bob)).unwrap().len(), 1);
}

#[test]
fn a_refused_row_leaves_no_part_of_the_import() {
    let mut conn = open();
    let user = register(&conn, "ann", "pw");
    let ledger: Vec<Transaction> =
        (1..=5).map(|i| entry("01/03/2024", "Item", i, Some("x"))).collect();
    let import = store_statement_data(&user, "/f/m.csv", "a", "b", &ledger).unwrap();
    for failing in 0..5 {
        let mut unit = import.commands.clone();
        unit[2 + failing].params[2] = SqlValue::Null;
        let refused = run_atomically(&mut conn, &unit).unwrap_err();
        assert!(refused.contains("NOT NULL constraint failed: transactions.posting_date"));
        assert_eq!(count(&conn, "transactions"), 0);
        assert_eq!(count(&conn, "statements"), 0);
        assert_eq!(count(&conn, "documents"), 0);
        assert!(documents(&conn, &user).is_empty());
    }
    run_atomically(&mut conn, &import.commands).unwrap();
    assert_eq!(count(&conn, "transactions"), 5);
    assert_eq!(count(&conn, "statements"), 1);
    assert_eq!(count(&conn, "documents"), 1);
}

#[test]
fn a_refused_row_leaves_no_part_of_the_batch() {
    let mut conn = open();
    let user = register(&conn, "ann", "pw");
    let ledger: Vec<Transaction> =
        (1..=5).map(|i| entry("01/03/2024", "Item", i, Some("x"))).collect();
    let (statement_id, unit) = store_statement(&user, "/f/m.csv", "a", "b").unwrap();
    run_atomically(&mut conn, &unit).unwrap();
    let batch = store_transactions(&statement_id, &ledger);
    for failing in 0..5 {
        let mut spoilt = batch.clone();
        spoilt[failing].params[2] = SqlValue::Null;
        assert!(run_atomically(&mut conn, &spoilt).is_err());
        let rows = transaction_rows(&conn, &get_statement_transactions_query(&statement_id));
        assert!(rows.is_empty());
        assert_eq!(count(&conn, "transactions"), 0);
    }
    run_atomically(&mut conn, &batch).unwrap();
    assert_eq!(count(&conn, "transactions"), 5);
}

#[test]
fn a_statement_without_its_user_is_refused_whole() {
    let mut conn = open();
    let import = store_statement_data("nobody", "/f/m.csv", "a", "b", &vec![]).unwrap();
    assert!(run_atomically(&mut conn, &import.commands).is_err());
    assert_eq!(count(&conn, "documents"), 0);
    assert_eq!(count(&conn, "statements"), 0);
    let batch = store_transactions("no statement", &vec![entry("d", "x", 1, None)]);
    assert!(run_atomically(&mut conn, &batch).is_err());
    assert_eq!(count(&conn, "transactions"), 0);
}

#[test]
fn transactions_of_a_user_are_bounded_and_ordered_as_text() {
    let mut conn = open();
    let ann = register(&conn, "ann", "pw");
    let bob = register(&conn, "bob", "pw");
    let days = ["2024-03-01", "2024-03-15", "2024-03-31", "2024-04-01", "2024-03-15T09:00"];
    let ledger: Vec<Transaction> =
        days.iter().enumerate().map(|(i, d)| entry(d, d, i as i64 + 1, Some("c"))).collect();
    let first = store_statement_data(&ann, "/f/a.csv", "a", "b", &ledger[..3].to_vec()).unwrap();
    let second = store_statement_data(&ann, "/f/b.csv", "a", "b", &ledger[3..].to_vec()).unwrap();
    let other =
        store_statement_data(&bob, "/f/c.csv", "a", "b", &vec![entry("2024-03-10", "bob", 9, None)])
            .unwrap();
    for import in [&first, &second, &other] {
        run_atomically(&mut conn, &import.commands).unwrap();
    }
    let dates = |start: Option<&str>, end: Option<&str>| -> Vec<String> {
        let command =
            get_user_transactions_query(&ann, start.map(String::from), end.map(String::from));
        get_user_transactions(&transaction_rows(&conn, &command))
            .into_iter()
            .map(|t| t.transaction_date)
            .collect()
    };
    assert_eq!(
        dates(None, None),
        vec!["2024-04-01", "2024-03-31", "2024-03-15T09:00", "2024-03-15", "2024-03-01"]
    );
    assert_eq!(dates(Some("2024-03-15"), None).len(), 4);
    assert_eq!(dates(None, Some("2024-03-15")), vec!["2024-03-15T09:00", "2024-03-15", "2024-03-01"]);
    assert_eq!(dates(Some("2024-03-02"), Some("2024-03-31")).len(), 3);
    assert_eq!(dates(Some("2024-05-01"), None).len(), 0);
}
