//! The words spoken to the relational engine: the schema, the statements, and the shape of a
//! command with its bound values. Nothing here touches the engine.

use vstd::prelude::*;

verus! {

/// Creates the table of users; user names are unique.
pub const CREATE_USERS: &'static str = "CREATE TABLE IF NOT EXISTS users (
                id TEXT PRIMARY KEY,
                username TEXT UNIQUE NOT NULL,
                password_hash TEXT NOT NULL,
                created_at DATETIME DEFAULT CURRENT_TIMESTAMP
            )";

/// Creates the table of documents, each owned by a user.
pub const CREATE_DOCUMENTS: &'static str = "CREATE TABLE IF NOT EXISTS documents (
                id TEXT PRIMARY KEY,
                user_id TEXT NOT NULL,
                filename TEXT NOT NULL,
                file_path TEXT NOT NULL,
                uploaded_at DATETIME DEFAULT CURRENT_TIMESTAMP,
                FOREIGN KEY (user_id) REFERENCES users(id)
            )";

/// Creates the table of statements, each of a user and of a document.
pub const CREATE_STATEMENTS: &'static str = "CREATE TABLE IF NOT EXISTS statements (
                id TEXT PRIMARY KEY,
                user_id TEXT NOT NULL,
                document_id TEXT NOT NULL,
                start_date TEXT NOT NULL,
                end_date TEXT NOT NULL,
                uploaded_at DATETIME DEFAULT CURRENT_TIMESTAMP,
                FOREIGN KEY (user_id) REFERENCES users(id),
                FOREIGN KEY (document_id) REFERENCES documents(id)
            )";

/// Creates the table of transactions, each of a statement.
pub const CREATE_TRANSACTIONS: &'static str = "CREATE TABLE IF NOT EXISTS transactions (
                id TEXT PRIMARY KEY,
                statement_id TEXT NOT NULL,
                posting_date TEXT NOT NULL,
                transaction_date TEXT NOT NULL,
                description TEXT NOT NULL,
                money_in TEXT,
                money_out TEXT,
                balance TEXT NOT NULL,
                category TEXT,
                transaction_type TEXT NOT NULL,
                FOREIGN KEY (statement_id) REFERENCES statements(id)
            )";

/// Lists the users, newest first.
pub const SELECT_USERS: &'static str =
    "SELECT id, username, created_at FROM users ORDER BY created_at DESC";

/// Persists a user.
pub const INSERT_USER: &'static str =
    "INSERT INTO users (id, username, password_hash, created_at) VALUES (?1, ?2, ?3, ?4)";

/// Finds the credentials kept for a user name.
pub const SELECT_CREDENTIALS: &'static str =
    "SELECT id, password_hash, created_at FROM users WHERE username = ?1";

/// Persists a document with the instant of its upload.
pub const INSERT_DOCUMENT: &'static str =
    "INSERT INTO documents (id, user_id, filename, file_path, uploaded_at) VALUES (?1, ?2, ?3, ?4, ?5)";

/// Lists the documents of a user, newest first.
pub const SELECT_DOCUMENTS: &'static str =
    "SELECT id, filename, file_path, uploaded_at FROM documents WHERE user_id = ?1 ORDER BY uploaded_at DESC";

/// Persists a statement; the engine stamps the upload.
pub const INSERT_STATEMENT: &'static str =
    "INSERT INTO statements (id, user_id, document_id, start_date, end_date) VALUES (?, ?, ?, ?, ?)";

/// Persists a transaction of a statement.
pub const INSERT_TRANSACTION: &'static str =
    "INSERT INTO transactions (id, statement_id, posting_date, transaction_date, description, money_in, money_out, balance, category, transaction_type) VALUES (?, ?, ?, ?, ?, ?, ?, ?, ?, ?)";

/// Lists the transactions of all statements of a user.
pub const SELECT_USER_TRANSACTIONS: &'static str =
    "SELECT t.posting_date, t.transaction_date, t.description, t.money_in, t.money_out, t.balance, t.category, t.transaction_type FROM transactions t JOIN statements s ON t.statement_id = s.id WHERE s.user_id = ?";

/// Keeps the rows whose transaction date, by its first ten characters, is not before the bound.
pub const FROM_DATE_FILTER: &'static str = " AND substr(t.transaction_date, 1, 10) >= ?";

/// Keeps the rows whose transaction date, by its first ten characters, is not after the bound.
pub const TO_DATE_FILTER: &'static str = " AND substr(t.transaction_date, 1, 10) <= ?";

/// Orders rows by the text of the transaction date, latest first: the first ten characters,
/// then what follows the eleventh.
pub const NEWEST_FIRST: &'static str =
    " ORDER BY substr(t.transaction_date, 1, 10) DESC, substr(t.transaction_date, 12) DESC";

/// Lists the statements of a user, newest first, each with the path of its document.
pub const SELECT_STATEMENTS: &'static str =
    "SELECT s.id, s.user_id, d.file_path, s.start_date, s.end_date, s.uploaded_at FROM statements s JOIN documents d ON s.document_id = d.id WHERE s.user_id = ? ORDER BY s.uploaded_at DESC, s.rowid DESC";

/// Lists the transactions of one statement in the order in which they were persisted.
pub const SELECT_STATEMENT_TRANSACTIONS: &'static str =
    "SELECT posting_date, transaction_date, description, money_in, money_out, balance, category, transaction_type FROM transactions WHERE statement_id = ? ORDER BY rowid";

/// A value bound to a placeholder of a statement: a text, or the engine's null.
#[derive(Debug, Clone, PartialEq, Eq)]
pub enum SqlValue {
    Text(String),
    Null,
}

/// A statement and the values bound to its placeholders, in order.
#[derive(Debug, Clone, PartialEq, Eq)]
pub struct SqlCommand {
    pub sql: String,
    pub params: Vec<SqlValue>,
}

/// The value of a [`SqlCommand`]: its text and its bound values, `None` for null.
pub struct SqlCommandView {
    pub sql: Seq<char>,
    pub params: Seq<Option<Seq<char>>>,
}

impl View for SqlValue {
    type V = Option<Seq<char>>;

    open spec fn view(&self) -> Option<Seq<char>> {
        match self {
            SqlValue::Text(s) => Some(s@),
            SqlValue::Null => None,
        }
    }
}

/// The views of bound values, in order.
pub open spec fn params_view(params: Seq<SqlValue>) -> Seq<Option<Seq<char>>> {
    Seq::new(params.len(), |i: int| params[i]@)
}

impl View for SqlCommand {
    type V = SqlCommandView;

    open spec fn view(&self) -> SqlCommandView {
        SqlCommandView { sql: self.sql@, params: params_view(self.params@) }
    }
}

/// The views of commands, in order.
pub open spec fn command_views(commands: Seq<SqlCommand>) -> Seq<SqlCommandView> {
    Seq::new(commands.len(), |i: int| commands[i]@)
}

/// A command as a value.
pub open spec fn command(sql: Seq<char>, params: Seq<Option<Seq<char>>>) -> SqlCommandView {
    SqlCommandView { sql, params }
}

/// The statements that create the four tables, in the order that their references need.
pub open spec fn schema_statements() -> Seq<Seq<char>> {
    seq![CREATE_USERS@, CREATE_DOCUMENTS@, CREATE_STATEMENTS@, CREATE_TRANSACTIONS@]
}

/// A text as a bound value.
pub fn text(s: &str) -> (v: SqlValue)
    ensures
        v@ == Some(s@),
{
    SqlValue::Text(s.to_string())
}

/// An optional text as a bound value: null where there is none.
pub fn optional(s: Option<String>) -> (v: SqlValue)
    ensures
        v@ == crate::model::optional_text(s),
{
    match s {
        Some(s) => SqlValue::Text(s),
        None => SqlValue::Null,
    }
}

/// A command from its statement and its values.
pub fn command_of(sql: &str, params: Vec<SqlValue>) -> (c: SqlCommand)
    ensures
        c@ == command(sql@, params_view(params@)),
{
    SqlCommand { sql: sql.to_string(), params }
}

/// The commands that create the schema. Each creates its table only if it is not there, so
/// running them against a store that has the tables changes nothing.
pub fn schema() -> (commands: Vec<SqlCommand>)
    ensures
        commands.len() == 4,
        forall|i: int|
            0 <= i < 4 ==> (#[trigger] commands@[i])@ == command(
                schema_statements()[i],
                Seq::empty(),
            ),
{
    let mut commands: Vec<SqlCommand> = Vec::new();
    commands.push(command_of(CREATE_USERS, Vec::new()));
    commands.push(command_of(CREATE_DOCUMENTS, Vec::new()));
    commands.push(command_of(CREATE_STATEMENTS, Vec::new()));
    commands.push(command_of(CREATE_TRANSACTIONS, Vec::new()));
    proof {
        assert forall|i: int| 0 <= i < 4 implies (#[trigger] commands@[i])@ == command(
            schema_statements()[i],
            Seq::empty(),
        ) by {
            assert(commands@[i]@.params =~= Seq::empty());
        }
    }
    commands
}

/// Every statement of the schema creates a table on the condition that it does not exist.
pub proof fn lemma_schema_is_conditional()
    ensures
        crate::text::begins_with(CREATE_USERS@, "CREATE TABLE IF NOT EXISTS "@),
        crate::text::begins_with(CREATE_DOCUMENTS@, "CREATE TABLE IF NOT EXISTS "@),
        crate::text::begins_with(CREATE_STATEMENTS@, "CREATE TABLE IF NOT EXISTS "@),
        crate::text::begins_with(CREATE_TRANSACTIONS@, "CREATE TABLE IF NOT EXISTS "@),
{
    reveal_strlit("CREATE TABLE IF NOT EXISTS ");
    reveal_strlit(
        "CREATE TABLE IF NOT EXISTS users (
                id TEXT PRIMARY KEY,
                username TEXT UNIQUE NOT NULL,
                password_hash TEXT NOT NULL,
                created_at DATETIME DEFAULT CURRENT_TIMESTAMP
            )",
    );
    reveal_strlit(
        "CREATE TABLE IF NOT EXISTS documents (
                id TEXT PRIMARY KEY,
                user_id TEXT NOT NULL,
                filename TEXT NOT NULL,
                file_path TEXT NOT NULL,
                uploaded_at DATETIME DEFAULT CURRENT_TIMESTAMP,
                FOREIGN KEY (user_id) REFERENCES users(id)
            )",
    );
    reveal_strlit(
        "CREATE TABLE IF NOT EXISTS statements (
                id TEXT PRIMARY KEY,
                user_id TEXT NOT NULL,
                document_id TEXT NOT NULL,
                start_date TEXT NOT NULL,
                end_date TEXT NOT NULL,
                uploaded_at DATETIME DEFAULT CURRENT_TIMESTAMP,
                FOREIGN KEY (user_id) REFERENCES users(id),
                FOREIGN KEY (document_id) REFERENCES documents(id)
            )",
    );
    reveal_strlit(
        "CREATE TABLE IF NOT EXISTS transactions (
                id TEXT PRIMARY KEY,
                statement_id TEXT NOT NULL,
                posting_date TEXT NOT NULL,
                transaction_date TEXT NOT NULL,
                description TEXT NOT NULL,
                money_in TEXT,
                money_out TEXT,
                balance TEXT NOT NULL,
                category TEXT,
                transaction_type TEXT NOT NULL,
                FOREIGN KEY (statement_id) REFERENCES statements(id)
            )",
    );
    let prefix = "CREATE TABLE IF NOT EXISTS "@;
    assert(CREATE_USERS@.subrange(0, prefix.len() as int) =~= prefix);
    assert(CREATE_DOCUMENTS@.subrange(0, prefix.len() as int) =~= prefix);
    assert(CREATE_STATEMENTS@.subrange(0, prefix.len() as int) =~= prefix);
    assert(CREATE_TRANSACTIONS@.subrange(0, prefix.len() as int) =~= prefix);
}

} // verus!
