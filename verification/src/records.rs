//! What the store keeps: users, documents and statements, and the rows in which they and the
//! transactions lie.

use vstd::prelude::*;

verus! {

/// A registered user. `created_at` is an RFC 3339 instant in UTC.
#[derive(Debug, Clone, PartialEq, Eq)]
pub struct User {
    pub id: String,
    pub username: String,
    pub created_at: String,
}

/// The value of a [`User`].
pub struct UserView {
    pub id: Seq<char>,
    pub username: Seq<char>,
    pub created_at: Seq<char>,
}

/// An uploaded file, owned by one user. `uploaded_at` is an RFC 3339 instant in UTC.
#[derive(Debug, Clone, PartialEq, Eq)]
pub struct Document {
    pub id: String,
    pub user_id: String,
    pub filename: String,
    pub file_path: String,
    pub uploaded_at: String,
}

/// The value of a [`Document`].
pub struct DocumentView {
    pub id: Seq<char>,
    pub user_id: Seq<char>,
    pub filename: Seq<char>,
    pub file_path: Seq<char>,
    pub uploaded_at: Seq<char>,
}

/// One import: the span of a parsed document, to which its transactions belong.
#[derive(Debug, Clone, PartialEq, Eq)]
pub struct Statement {
    pub id: String,
    pub user_id: String,
    pub file_path: String,
    pub start_date: String,
    pub end_date: String,
    pub uploaded_at: String,
}

/// The value of a [`Statement`].
pub struct StatementView {
    pub id: Seq<char>,
    pub user_id: Seq<char>,
    pub file_path: Seq<char>,
    pub start_date: Seq<char>,
    pub end_date: Seq<char>,
    pub uploaded_at: Seq<char>,
}

/// A row of the users table as a listing reads it.
#[derive(Debug, Clone, PartialEq, Eq)]
pub struct UserRow {
    pub id: String,
    pub username: String,
    pub created_at: String,
}

/// A row of the users table as a login reads it.
#[derive(Debug, Clone, PartialEq, Eq)]
pub struct CredentialRow {
    pub id: String,
    pub password_hash: String,
    pub created_at: String,
}

/// A row of the documents table as a listing reads it.
#[derive(Debug, Clone, PartialEq, Eq)]
pub struct DocumentRow {
    pub id: String,
    pub filename: String,
    pub file_path: String,
    pub uploaded_at: String,
}

/// A row of a listing of statements: a statement, and the path of the document that it
/// refers to.
#[derive(Debug, Clone, PartialEq, Eq)]
pub struct StatementRow {
    pub id: String,
    pub user_id: String,
    pub file_path: String,
    pub start_date: String,
    pub end_date: String,
    pub uploaded_at: String,
}

/// A row of the transactions table, without its keys: every column is text, and the two
/// amounts and the category may be null.
#[derive(Debug, Clone, PartialEq, Eq)]
pub struct TransactionRow {
    pub posting_date: String,
    pub transaction_date: String,
    pub description: String,
    pub money_in: Option<String>,
    pub money_out: Option<String>,
    pub balance: String,
    pub category: Option<String>,
    pub transaction_type: String,
}

/// The value of a [`TransactionRow`].
pub struct TransactionRowView {
    pub posting_date: Seq<char>,
    pub transaction_date: Seq<char>,
    pub description: Seq<char>,
    pub money_in: Option<Seq<char>>,
    pub money_out: Option<Seq<char>>,
    pub balance: Seq<char>,
    pub category: Option<Seq<char>>,
    pub transaction_type: Seq<char>,
}

impl View for User {
    type V = UserView;

    open spec fn view(&self) -> UserView {
        UserView { id: self.id@, username: self.username@, created_at: self.created_at@ }
    }
}

impl View for Document {
    type V = DocumentView;

    open spec fn view(&self) -> DocumentView {
        DocumentView {
            id: self.id@,
            user_id: self.user_id@,
            filename: self.filename@,
            file_path: self.file_path@,
            uploaded_at: self.uploaded_at@,
        }
    }
}

impl View for Statement {
    type V = StatementView;

    open spec fn view(&self) -> StatementView {
        StatementView {
            id: self.id@,
            user_id: self.user_id@,
            file_path: self.file_path@,
            start_date: self.start_date@,
            end_date: self.end_date@,
            uploaded_at: self.uploaded_at@,
        }
    }
}

impl View for TransactionRow {
    type V = TransactionRowView;

    open spec fn view(&self) -> TransactionRowView {
        TransactionRowView {
            posting_date: self.posting_date@,
            transaction_date: self.transaction_date@,
            description: self.description@,
            money_in: crate::model::optional_text(self.money_in),
            money_out: crate::model::optional_text(self.money_out),
            balance: self.balance@,
            category: crate::model::optional_text(self.category),
            transaction_type: self.transaction_type@,
        }
    }
}

} // verus!
