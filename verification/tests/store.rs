use statement_ledger::atomic::{AtomicWrite, WriteAction};
use statement_ledger::clock::{instant_at, utc_now};
use statement_ledger::errors::DbError;
use statement_ledger::model::Transaction;
use statement_ledger::paths::{detect_format, file_name_from, format_for_extension, FileFormat};
use statement_ledger::records::{
    CredentialRow, DocumentRow, StatementRow, TransactionRow, UserRow,
};
use statement_ledger::requests::{CommandResponse, LoginRequest, RegisterRequest};
use statement_ledger::rows::{decode_transaction, decode_transactions, encode_transaction};
use statement_ledger::sql::{command_of, optional, schema, text, SqlCommand, SqlValue};
use statement_ledger::store::{
    authenticate_user, authentication_outcome, create_user, document_from_row,
    find_credentials_query, get_statement_transactions, get_statement_transactions_query,
    get_user_documents, get_user_documents_query, get_user_statements, get_user_statements_query,
    get_user_transactions, get_user_transactions_query, list_users, list_users_query,
    new_document, new_user, statement_inserts, store_document, store_document_at, store_statement,
    store_transactions, transaction_insert, user_from_row,
};

const HORSE_HASH: &str = "$2b$04$EGdrhbKUv8Oc9vGiXX0HQOxSg445d458Muh7DAHskb6QbtCvdxcie";

fn t(s: &str) -> SqlValue {
    SqlValue::Text(s.to_string())
}

fn entry(category: Option<&str>) -> Transaction {
    Transaction {
        posting_date: "01/03/2024".to_string(),
        transaction_date: "02/03/2024".to_string(),
        description: "Grocery Store".to_string(),
        money_in: None,
        money_out: Some(15000),
        balance: 85000,
        category: category.map(|c| c.to_string()),
        transaction_type: "debit".to_string(),
    }
}

fn credentials(created_at: &str) -> CredentialRow {
    CredentialRow {
        id: "user-1".to_string(),
        password_hash: HORSE_HASH.to_string(),
        created_at: created_at.to_string(),
    }
}

#[test]
fn schema_creates_four_tables_if_absent() {
    let commands = schema();
    assert_eq!(commands.len(), 4);
    let tables = ["users", "documents", "statements", "transactions"];
    for (c, table) in commands.iter().zip(tables) {
        assert!(c.sql.starts_with(&format!("CREATE TABLE IF NOT EXISTS {} (", table)));
        assert!(c.params.is_empty());
    }
    assert!(commands[1].sql.contains("FOREIGN KEY (user_id) REFERENCES users(id)"));
    assert!(commands[2].sql.contains("FOREIGN KEY (document_id) REFERENCES documents(id)"));
    assert!(commands[3].sql.contains("FOREIGN KEY (statement_id) REFERENCES statements(id)"));
    assert!(commands[0].sql.contains("username TEXT UNIQUE NOT NULL"));
}

#[test]
fn bound_values() {
    assert_eq!(text("a"), t("a"));
    assert_eq!(optional(Some("a".to_string())), t("a"));
    assert_eq!(optional(None), SqlValue::Null);
    assert_eq!(
        command_of("SELECT 1", vec![SqlValue::Null]),
        SqlCommand { sql: "SELECT 1".to_string(), params: vec![SqlValue::Null] }
    );
}

#[test]
fn registering_hashes_the_password() {
    let (user, command) = create_user("ann", "s3cret").unwrap();
    assert_eq!(user.username, "ann");
    assert_eq!(user.id.len(), 36);
    assert_eq!(command.sql, "INSERT INTO users (id, username, password_hash, created_at) VALUES (?1, ?2, ?3, ?4)");
    assert_eq!(command.params.len(), 4);
    assert_eq!(command.params[0], t(&user.id));
    assert_eq!(command.params[1], t("ann"));
    assert_eq!(command.params[3], t(&user.created_at));
    let hash = match &command.params[2] {
        SqlValue::Text(h) => h.clone(),
        SqlValue::Null => panic!("no hash"),
    };
    assert_ne!(hash, "s3cret");
    assert_eq!(hash.len(), 60);
    assert!(!command.params.contains(&t("s3cret")));
    assert!(user.created_at.ends_with("+00:00"));
    let row = CredentialRow {
        id: user.id.clone(),
        password_hash: hash,
        created_at: user.created_at.clone(),
    };
    assert_eq!(authenticate_user("ann", "s3cret", Some(row)), Ok(user));
}

#[test]
fn fresh_identifiers_differ() {
    let (a, _) = store_document("u", "f.pdf", "/tmp/f.pdf").unwrap();
    let (b, _) = store_document("u", "f.pdf", "/tmp/f.pdf").unwrap();
    assert_ne!(a.id, b.id);
}

#[test]
fn instants_are_written_for_the_years_that_can_be_read_back() {
    assert_eq!(instant_at(Some((0, 0))), Some("1970-01-01T00:00:00+00:00".to_string()));
    assert_eq!(
        instant_at(Some((1_709_287_200, 500_000_000))),
        Some("2024-03-01T10:00:00.500+00:00".to_string())
    );
    assert_eq!(
        instant_at(Some((253_402_300_799, 999_999_999))),
        Some("9999-12-31T23:59:59.999999999+00:00".to_string())
    );
    assert_eq!(instant_at(Some((253_402_300_800, 0))), None);
    assert_eq!(instant_at(Some((u64::MAX, 0))), None);
    assert_eq!(instant_at(None), None);
    let now = utc_now().unwrap();
    let row = UserRow { id: "i".to_string(), username: "n".to_string(), created_at: now.clone() };
    assert_eq!(list_users(&vec![row]).unwrap()[0].created_at, now);
}

#[test]
fn login_with_the_right_password() {
    let user =
        authenticate_user("horse", "correctbatteryhorsestapler", Some(credentials("2024-03-01T12:00:00+02:00")))
            .unwrap();
    assert_eq!(user.id, "user-1");
    assert_eq!(user.username, "horse");
    assert_eq!(user.created_at, "2024-03-01T10:00:00+00:00");
}

#[test]
fn wrong_password_and_unknown_user_fail_alike() {
    let wrong = authenticate_user(
        "horse",
        "correctbatteryhorsestaple",
        Some(credentials("2024-03-01T12:00:00+02:00")),
    );
    let unknown = authenticate_user("nobody", "correctbatteryhorsestapler", None);
    assert_eq!(wrong, Err(DbError::AuthError));
    assert_eq!(unknown, wrong);
    assert_eq!(wrong.unwrap_err().message(), "Authentication failed");
    assert_eq!(
        authenticate_user("horse", "Correctbatteryhorsestapler", Some(credentials("x"))),
        Err(DbError::AuthError)
    );
}

#[test]
fn login_failures_of_their_own() {
    let bad_date = authenticate_user("horse", "correctbatteryhorsestapler", Some(credentials("2024-03-01 12:00:00")));
    assert!(matches!(bad_date, Err(DbError::DateError(_))));
    assert!(bad_date.unwrap_err().message().starts_with("Date parsing error: "));
    let mut row = credentials("2024-03-01T12:00:00Z");
    row.password_hash = "not a hash".to_string();
    let bad_hash = authenticate_user("horse", "correctbatteryhorsestapler", Some(row));
    assert!(matches!(bad_hash, Err(DbError::Bcrypt(_))));
    assert!(bad_hash.unwrap_err().message().starts_with("Password hashing error: Invalid hash: "));
}

#[test]
fn outcome_of_each_event() {
    let row = credentials("unused");
    let ok = |s: &str| Ok::<String, String>(s.to_string());
    assert_eq!(authentication_outcome("u", None, Ok(true), ok("at")), Err(DbError::AuthError));
    assert_eq!(
        authentication_outcome("u", Some(row.clone()), Ok(false), ok("at")),
        Err(DbError::AuthError)
    );
    assert_eq!(
        authentication_outcome("u", Some(row.clone()), Err("e".to_string()), ok("at")),
        Err(DbError::Bcrypt("e".to_string()))
    );
    assert_eq!(
        authentication_outcome("u", Some(row.clone()), Ok(true), Err("d".to_string())),
        Err(DbError::DateError("d".to_string()))
    );
    let user = authentication_outcome("u", Some(row), Ok(true), ok("at")).unwrap();
    assert_eq!((user.id.as_str(), user.username.as_str(), user.created_at.as_str()), ("user-1", "u", "at"));
}

#[test]
fn error_messages() {
    assert_eq!(DbError::Sqlite("x".to_string()).message(), "Database error: x");
    assert_eq!(DbError::Pool("x".to_string()).message(), "Connection pool error: x");
    assert_eq!(DbError::Bcrypt("x".to_string()).message(), "Password hashing error: x");
    assert_eq!(DbError::AuthError.message(), "Authentication failed");
    assert_eq!(DbError::DateError("x".to_string()).message(), "Date parsing error: x");
}

#[test]
fn queries_bind_their_arguments() {
    assert!(list_users_query().params.is_empty());
    assert_eq!(list_users_query().sql, "SELECT id, username, created_at FROM users ORDER BY created_at DESC");
    assert_eq!(find_credentials_query("ann").params, vec![t("ann")]);
    assert!(find_credentials_query("ann").sql.ends_with("WHERE username = ?1"));
    assert_eq!(get_user_documents_query("u1").params, vec![t("u1")]);
    assert!(get_user_documents_query("u1").sql.ends_with("ORDER BY uploaded_at DESC"));
    assert_eq!(get_user_statements_query("u1").params, vec![t("u1")]);
    assert_eq!(get_statement_transactions_query("s1").params, vec![t("s1")]);
    assert!(get_statement_transactions_query("s1").sql.ends_with("WHERE statement_id = ? ORDER BY rowid"));
}

#[test]
fn user_transactions_query_grows_with_its_bounds() {
    let base = "SELECT t.posting_date, t.transaction_date, t.description, t.money_in, t.money_out, t.balance, t.category, t.transaction_type FROM transactions t JOIN statements s ON t.statement_id = s.id WHERE s.user_id = ?";
    let from = " AND substr(t.transaction_date, 1, 10) >= ?";
    let to = " AND substr(t.transaction_date, 1, 10) <= ?";
    let order = " ORDER BY substr(t.transaction_date, 1, 10) DESC, substr(t.transaction_date, 12) DESC";
    let a = "2024-03-01".to_string();
    let b = "2024-03-31".to_string();

    let none = get_user_transactions_query("u", None, None);
    assert_eq!(none.sql, format!("{}{}", base, order));
    assert_eq!(none.params, vec![t("u")]);
    let start = get_user_transactions_query("u", Some(a.clone()), None);
    assert_eq!(start.sql, format!("{}{}{}", base, from, order));
    assert_eq!(start.params, vec![t("u"), t(&a)]);
    let end = get_user_transactions_query("u", None, Some(b.clone()));
    assert_eq!(end.sql, format!("{}{}{}", base, to, order));
    assert_eq!(end.params, vec![t("u"), t(&b)]);
    let both = get_user_transactions_query("u", Some(a.clone()), Some(b.clone()));
    assert_eq!(both.sql, format!("{}{}{}{}", base, from, to, order));
    assert_eq!(both.params, vec![t("u"), t(&a), t(&b)]);
}

#[test]
fn users_are_listed_until_an_instant_fails() {
    let row = |id: &str, at: &str| UserRow {
        id: id.to_string(),
        username: format!("name-{}", id),
        created_at: at.to_string(),
    };
    let users = list_users(&vec![row("1", "2024-03-01T00:30:00.5+01:00"), row("2", "2024-03-02T00:00:00Z")]).unwrap();
    assert_eq!(users.len(), 2);
    assert_eq!(users[0].id, "1");
    assert_eq!(users[0].username, "name-1");
    assert_eq!(users[0].created_at, "2024-02-29T23:30:00.500+00:00");
    assert_eq!(users[1].created_at, "2024-03-02T00:00:00+00:00");
    assert_eq!(list_users(&vec![]), Ok(vec![]));
    let failed = list_users(&vec![row("1", "2024-03-02T00:00:00Z"), row("2", "2024-03-02 00:00:00"), row("3", "never")]);
    let first = user_from_row(&row("2", ""), Err("reason".to_string()));
    assert_eq!(first, Err(DbError::DateError("reason".to_string())));
    assert!(matches!(failed, Err(DbError::DateError(_))));
}

#[test]
fn documents_are_listed_for_their_owner() {
    let row = DocumentRow {
        id: "d1".to_string(),
        filename: "march.pdf".to_string(),
        file_path: "/files/march.pdf".to_string(),
        uploaded_at: "2024-04-02T08:00:00Z".to_string(),
    };
    let docs = get_user_documents("u1", &vec![row.clone()]).unwrap();
    assert_eq!(docs.len(), 1);
    assert_eq!(docs[0].id, "d1");
    assert_eq!(docs[0].user_id, "u1");
    assert_eq!(docs[0].filename, "march.pdf");
    assert_eq!(docs[0].file_path, "/files/march.pdf");
    assert_eq!(docs[0].uploaded_at, "2024-04-02T08:00:00+00:00");
    let mut stamped_by_the_engine = row.clone();
    stamped_by_the_engine.uploaded_at = "2024-04-02 08:00:00".to_string();
    assert!(matches!(
        get_user_documents("u1", &vec![row.clone(), stamped_by_the_engine]),
        Err(DbError::DateError(_))
    ));
    assert_eq!(
        document_from_row("u1", &row, Err("why".to_string())),
        Err(DbError::DateError("why".to_string()))
    );
}

#[test]
fn new_rows_and_their_commands() {
    let (user, c) = new_user("id-1".to_string(), "ann", "hash".to_string(), "now".to_string());
    assert_eq!((user.id.as_str(), user.username.as_str(), user.created_at.as_str()), ("id-1", "ann", "now"));
    assert_eq!(c.params, vec![t("id-1"), t("ann"), t("hash"), t("now")]);
    let (doc, c) = new_document("d".to_string(), "now".to_string(), "u", "f.csv", "/x/f.csv");
    assert_eq!(doc.id, "d");
    assert_eq!(doc.uploaded_at, "now");
    assert_eq!(c.sql, "INSERT INTO documents (id, user_id, filename, file_path, uploaded_at) VALUES (?1, ?2, ?3, ?4, ?5)");
    assert_eq!(c.params, vec![t("d"), t("u"), t("f.csv"), t("/x/f.csv"), t("now")]);
    let (doc, c) = store_document("u", "f.csv", "/x/f.csv").unwrap();
    assert_eq!(c.params, vec![t(&doc.id), t("u"), t("f.csv"), t("/x/f.csv"), t(&doc.uploaded_at)]);
    let (doc, c) = store_document_at("u", "/x/y/march.pdf").unwrap();
    assert_eq!(doc.filename, "march.pdf");
    assert_eq!(c.params[2], t("march.pdf"));
    let (doc, _) = store_document_at("u", "march.pdf").unwrap();
    assert_eq!(doc.filename, "march.pdf");
    let (doc, _) = store_document_at("u", "x/.hidden").unwrap();
    assert_eq!(doc.filename, ".hidden");
    let (doc, _) = store_document_at("u", "..").unwrap();
    assert_eq!(doc.filename, "unknown");
    let (doc, _) = store_document_at("u", "a/..").unwrap();
    assert_eq!(doc.filename, "unknown");
}

#[test]
fn a_statement_is_two_commands_that_share_the_document() {
    let (statement_id, commands) =
        store_statement("u1", "/files/march.pdf", "01/03/2024", "31/03/2024").unwrap();
    assert_eq!(commands.len(), 2);
    assert_eq!(
        commands[0].sql,
        "INSERT INTO documents (id, user_id, filename, file_path, uploaded_at) VALUES (?1, ?2, ?3, ?4, ?5)"
    );
    assert_eq!(commands[1].sql, "INSERT INTO statements (id, user_id, document_id, start_date, end_date) VALUES (?, ?, ?, ?, ?)");
    let document_id = commands[0].params[0].clone();
    let stamp = commands[0].params[4].clone();
    assert_ne!(document_id, t(&statement_id));
    assert_eq!(
        commands[0].params,
        vec![document_id.clone(), t("u1"), t("march.pdf"), t("/files/march.pdf"), stamp.clone()]
    );
    assert_eq!(
        commands[1].params,
        vec![t(&statement_id), t("u1"), document_id, t("01/03/2024"), t("31/03/2024")]
    );
    let row = DocumentRow {
        id: "d".to_string(),
        filename: "march.pdf".to_string(),
        file_path: "/files/march.pdf".to_string(),
        uploaded_at: match stamp {
            SqlValue::Text(at) => at,
            SqlValue::Null => panic!("no instant"),
        },
    };
    assert_eq!(get_user_documents("u1", &vec![row.clone()]).unwrap()[0].uploaded_at, row.uploaded_at);
    let unnamed = statement_inserts("d", "s", "u", None, "", "now", "a", "b");
    assert_eq!(unnamed[0].params, vec![t("d"), t("u"), t("unknown"), t(""), t("now")]);
    assert_eq!(unnamed[1].params, vec![t("s"), t("u"), t("d"), t("a"), t("b")]);
    assert_eq!(file_name_from(Some("n".to_string())), "n");
}

#[test]
fn a_transaction_is_bound_as_text() {
    let c = transaction_insert("t1", "s1", &entry(None));
    assert_eq!(
        c.params,
        vec![
            t("t1"),
            t("s1"),
            t("01/03/2024"),
            t("02/03/2024"),
            t("Grocery Store"),
            SqlValue::Null,
            t("150.00"),
            t("850.00"),
            SqlValue::Null,
            t("debit"),
        ]
    );
    assert!(c.sql.starts_with("INSERT INTO transactions (id, statement_id, posting_date,"));
    let batch = store_transactions("s1", &vec![entry(None), entry(Some("FOOD")), entry(None)]);
    assert_eq!(batch.len(), 3);
    assert_eq!(batch[1].params[8], t("FOOD"));
    for c in &batch {
        assert_eq!(c.sql, batch[0].sql);
        assert_eq!(c.params[1], t("s1"));
        assert_eq!(c.params[2..8], batch[0].params[2..8]);
    }
    assert_ne!(batch[0].params[0], batch[1].params[0]);
    assert!(store_transactions("s1", &vec![]).is_empty());
}

#[test]
fn rows_read_back_what_was_written() {
    let with = entry(Some("FOOD"));
    assert_eq!(decode_transaction(&encode_transaction(&with)), with);
    let without = entry(None);
    assert_eq!(encode_transaction(&without).category, None);
    assert_eq!(decode_transaction(&encode_transaction(&without)), without);
    let empty = entry(Some(""));
    assert_eq!(decode_transaction(&encode_transaction(&empty)), empty);
    let mut extreme = entry(Some("x"));
    extreme.money_in = Some(i64::MIN);
    extreme.money_out = Some(i64::MAX);
    extreme.balance = -1;
    assert_eq!(decode_transaction(&encode_transaction(&extreme)), extreme);
    let list = vec![with.clone(), extreme.clone(), without.clone(), with.clone()];
    let rows: Vec<TransactionRow> = list.iter().map(encode_transaction).collect();
    assert_eq!(get_statement_transactions(&rows), list);
    assert_eq!(get_user_transactions(&rows), list);
    assert_eq!(decode_transactions(&rows), list);
}

#[test]
fn rows_with_unreadable_numbers_read_as_zero() {
    let row = TransactionRow {
        posting_date: "p".to_string(),
        transaction_date: "d".to_string(),
        description: "x".to_string(),
        money_in: Some("abc".to_string()),
        money_out: None,
        balance: "12.345".to_string(),
        category: None,
        transaction_type: "credit".to_string(),
    };
    let back = decode_transaction(&row);
    assert_eq!(back.money_in, Some(0));
    assert_eq!(back.money_out, None);
    assert_eq!(back.balance, 0);
    assert_eq!(back.category, None);
}

#[test]
fn a_statement_comes_back_latest_posting_date_first() {
    let row = |date: &str, description: &str| TransactionRow {
        posting_date: date.to_string(),
        transaction_date: date.to_string(),
        description: description.to_string(),
        money_in: Some("1.00".to_string()),
        money_out: None,
        balance: "1.00".to_string(),
        category: None,
        transaction_type: "credit".to_string(),
    };
    let rows = vec![
        row("01/03/2024", "a"),
        row("15/03/2024", "b"),
        row("2024-03-31", "c"),
        row("01/02/2025", "d"),
        row("15/03/2024", "e"),
        row("31/12/2023", "f"),
    ];
    let order: Vec<String> =
        get_statement_transactions(&rows).into_iter().map(|t| t.description).collect();
    assert_eq!(order, vec!["d", "b", "e", "a", "f", "c"]);
    let kept: Vec<String> = get_user_transactions(&rows).into_iter().map(|t| t.description).collect();
    assert_eq!(kept, vec!["a", "b", "c", "d", "e", "f"]);
}

#[test]
fn a_statement_row_becomes_a_statement() {
    let row = StatementRow {
        id: "s".to_string(),
        user_id: "u".to_string(),
        file_path: "/f/d.pdf".to_string(),
        start_date: "a".to_string(),
        end_date: "b".to_string(),
        uploaded_at: "2024-04-02 08:00:00".to_string(),
    };
    let statements = get_user_statements(&vec![row.clone(), row]);
    assert_eq!(statements.len(), 2);
    assert_eq!(statements[0].id, "s");
    assert_eq!(statements[0].user_id, "u");
    assert_eq!(statements[0].file_path, "/f/d.pdf");
    assert_eq!(statements[0].start_date, "a");
    assert_eq!(statements[0].end_date, "b");
    assert_eq!(statements[0].uploaded_at, "2024-04-02 08:00:00");
}

#[test]
fn formats_by_extension() {
    assert_eq!(detect_format("/home/ann/march.pdf"), FileFormat::Pdf);
    assert_eq!(detect_format("march.PDF"), FileFormat::Pdf);
    assert_eq!(detect_format("export.Csv"), FileFormat::Csv);
    assert_eq!(detect_format("export.csv.bak"), FileFormat::Unsupported);
    assert_eq!(detect_format("pdf"), FileFormat::Unsupported);
    assert_eq!(detect_format(".pdf"), FileFormat::Unsupported);
    assert_eq!(detect_format("dir.pdf/file"), FileFormat::Unsupported);
    assert_eq!(detect_format(""), FileFormat::Unsupported);
    assert_eq!(detect_format(".."), FileFormat::Unsupported);
    assert_eq!(detect_format("..."), FileFormat::Unsupported);
    assert_eq!(detect_format("..pdf"), FileFormat::Pdf);
    assert_eq!(detect_format("a.csv."), FileFormat::Unsupported);
    assert_eq!(detect_format("a.b.csv"), FileFormat::Csv);
    assert_eq!(detect_format("a.pdf/"), FileFormat::Pdf);
    assert_eq!(detect_format("/tmp/statement.pdf"), FileFormat::Pdf);
    assert_eq!(detect_format("exports/2024/march.CSV"), FileFormat::Csv);
    assert_eq!(detect_format("a.pdf/readme"), FileFormat::Unsupported);
    assert_eq!(detect_format("a.pdf/.csv"), FileFormat::Unsupported);
    assert_eq!(detect_format("./x/../y.pdf"), FileFormat::Pdf);
    assert_eq!(detect_format("x/y.pdf/.."), FileFormat::Unsupported);
    assert_eq!(format_for_extension(Some("pDf")), FileFormat::Pdf);
    assert_eq!(format_for_extension(Some("CSV")), FileFormat::Csv);
    assert_eq!(format_for_extension(Some("pdfx")), FileFormat::Unsupported);
    assert_eq!(format_for_extension(Some("txt")), FileFormat::Unsupported);
    assert_eq!(format_for_extension(Some("")), FileFormat::Unsupported);
    assert_eq!(format_for_extension(None), FileFormat::Unsupported);
}

#[test]
fn envelopes() {
    let ok = CommandResponse::success(7);
    assert_eq!(ok, CommandResponse { success: true, data: Some(7), error: None });
    let failed: CommandResponse<i32> = CommandResponse::error("no".to_string());
    assert_eq!(failed, CommandResponse { success: false, data: None, error: Some("no".to_string()) });
    assert_eq!(CommandResponse::from_result(Ok::<i32, String>(7)), ok);
    assert_eq!(CommandResponse::from_result(Err::<i32, String>("no".to_string())), failed);
    let login = LoginRequest { username: "a".to_string(), password: "b".to_string() };
    let register = RegisterRequest { username: "a".to_string(), password: "b".to_string() };
    assert_eq!(login.username, register.username);
}

#[test]
fn a_batch_commits_only_when_every_command_was_taken() {
    let mut w = AtomicWrite::begin(3);
    assert_eq!(w.next_action(), WriteAction::Execute(0));
    w.record(true);
    assert_eq!(w.next_action(), WriteAction::Execute(1));
    w.record(true);
    w.record(true);
    assert_eq!(w.next_action(), WriteAction::Commit);
    w.record(false);
    assert_eq!(w.next_action(), WriteAction::Commit);
    assert_eq!(AtomicWrite::begin(0).next_action(), WriteAction::Commit);
}

#[test]
fn a_failure_rolls_the_batch_back() {
    for failing in 0..4 {
        let mut w = AtomicWrite::begin(4);
        for i in 0..4 {
            if w.next_action() == WriteAction::Execute(i) {
                w.record(i != failing);
            }
        }
        assert_eq!(w.next_action(), WriteAction::Rollback);
        assert_eq!(w.done, failing);
        w.record(true);
        assert_eq!(w.next_action(), WriteAction::Rollback);
    }
}
