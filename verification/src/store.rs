//! The operations of the store, as far as they can be decided without the engine: which
//! commands persist a thing, and what the rows that come back mean.
//!
//! Nothing here runs a command. The caller executes what these functions hand out, the
//! commands of one list inside one transaction of the engine, and hands back the rows read.

use crate::clock::{is_canonical, read_instant, rfc3339_in_utc, utc_now};
use crate::credentials::{bcrypt_verify, hash_password, verdict_view, verify_password};
use crate::errors::{DbError, DbErrorView, CLOCK_FAILED};
use crate::ledger::{is_ordered_ledger, order_by_posting_date};
use crate::ids::fresh_id;
use crate::model::{text_result, transaction_views, Transaction, TransactionView};
use crate::paths::{file_name_from, names_file, path_file_name, UNKNOWN_FILE_NAME};
use crate::records::{
    CredentialRow, Document, DocumentRow, DocumentView, Statement, StatementRow, StatementView,
    TransactionRow, User, UserRow, UserView,
};
use crate::rows::{decode_transactions, decoded_all, encode_transaction, encoded, row_views};
use crate::sql::{
    command, command_of, command_views, optional, text, SqlCommand, SqlCommandView, SqlValue,
    FROM_DATE_FILTER, INSERT_DOCUMENT, INSERT_STATEMENT,
    INSERT_TRANSACTION, INSERT_USER, NEWEST_FIRST, SELECT_CREDENTIALS, SELECT_DOCUMENTS,
    SELECT_STATEMENTS, SELECT_STATEMENT_TRANSACTIONS, SELECT_USERS, SELECT_USER_TRANSACTIONS,
    TO_DATE_FILTER,
};
use vstd::prelude::*;
use vstd::string::StringExecFns;

verus! {

/// The view of a user or a failure.
pub open spec fn user_result(r: Result<User, DbError>) -> Result<UserView, DbErrorView> {
    match r {
        Ok(u) => Ok(u@),
        Err(e) => Err(e@),
    }
}

/// The views of users, in order.
pub open spec fn user_views(users: Seq<User>) -> Seq<UserView> {
    Seq::new(users.len(), |i: int| users[i]@)
}

/// The views of documents, in order.
pub open spec fn document_views(documents: Seq<Document>) -> Seq<DocumentView> {
    Seq::new(documents.len(), |i: int| documents[i]@)
}

/// The user that a row of a listing holds, given the reading of its instant.
pub open spec fn user_of(row: UserRow, created: Result<Seq<char>, Seq<char>>) -> Result<
    UserView,
    DbErrorView,
> {
    match created {
        Ok(at) => Ok(UserView { id: row.id@, username: row.username@, created_at: at }),
        Err(e) => Err(DbErrorView::DateError(e)),
    }
}

/// The users that the rows of a listing hold, in order; the failure of the first row whose
/// instant cannot be read.
pub open spec fn users_of(rows: Seq<UserRow>) -> Result<Seq<UserView>, DbErrorView>
    decreases rows.len(),
{
    if rows.len() == 0 {
        Ok(Seq::empty())
    } else {
        match users_of(rows.drop_last()) {
            Err(e) => Err(e),
            Ok(users) => match user_of(rows.last(), rfc3339_in_utc(rows.last().created_at@)) {
                Ok(u) => Ok(users.push(u)),
                Err(e) => Err(e),
            },
        }
    }
}

/// The document of `user_id` that a row of a listing holds, given the reading of its instant.
pub open spec fn document_of(
    user_id: Seq<char>,
    row: DocumentRow,
    uploaded: Result<Seq<char>, Seq<char>>,
) -> Result<DocumentView, DbErrorView> {
    match uploaded {
        Ok(at) => Ok(
            DocumentView {
                id: row.id@,
                user_id,
                filename: row.filename@,
                file_path: row.file_path@,
                uploaded_at: at,
            },
        ),
        Err(e) => Err(DbErrorView::DateError(e)),
    }
}

/// The documents of `user_id` that the rows of a listing hold, in order; the failure of the
/// first row whose instant cannot be read.
pub open spec fn documents_of(user_id: Seq<char>, rows: Seq<DocumentRow>) -> Result<
    Seq<DocumentView>,
    DbErrorView,
>
    decreases rows.len(),
{
    if rows.len() == 0 {
        Ok(Seq::empty())
    } else {
        match documents_of(user_id, rows.drop_last()) {
            Err(e) => Err(e),
            Ok(documents) => match document_of(
                user_id,
                rows.last(),
                rfc3339_in_utc(rows.last().uploaded_at@),
            ) {
                Ok(d) => Ok(documents.push(d)),
                Err(e) => Err(e),
            },
        }
    }
}

/// The statement that a row of a listing holds.
pub open spec fn statement_of(row: StatementRow) -> StatementView {
    StatementView {
        id: row.id@,
        user_id: row.user_id@,
        file_path: row.file_path@,
        start_date: row.start_date@,
        end_date: row.end_date@,
        uploaded_at: row.uploaded_at@,
    }
}

/// The outcome of a login, given the row found for the user name, the verdict on the password
/// and the reading of the row's instant.
///
/// No row and a wrong password give the same failure. A hash that cannot be read, and after a
/// right password an instant that cannot be read, give failures of their own.
pub open spec fn authentication(
    username: Seq<char>,
    row: Option<CredentialRow>,
    verdict: Result<bool, Seq<char>>,
    created: Result<Seq<char>, Seq<char>>,
) -> Result<UserView, DbErrorView> {
    match row {
        None => Err(DbErrorView::AuthError),
        Some(row) => match verdict {
            Err(e) => Err(DbErrorView::Bcrypt(e)),
            Ok(false) => Err(DbErrorView::AuthError),
            Ok(true) => match created {
                Ok(at) => Ok(UserView { id: row.id@, username, created_at: at }),
                Err(e) => Err(DbErrorView::DateError(e)),
            },
        },
    }
}

/// The command that lists the transactions of a user, with the bounds that are given.
pub open spec fn user_transactions_command(
    user_id: Seq<char>,
    start_date: Option<Seq<char>>,
    end_date: Option<Seq<char>>,
) -> SqlCommandView {
    command(
        SELECT_USER_TRANSACTIONS@ + (match start_date {
            Some(_) => FROM_DATE_FILTER@,
            None => Seq::empty(),
        }) + (match end_date {
            Some(_) => TO_DATE_FILTER@,
            None => Seq::empty(),
        }) + NEWEST_FIRST@,
        seq![Some(user_id)] + (match start_date {
            Some(s) => seq![Some(s)],
            None => Seq::empty(),
        }) + (match end_date {
            Some(e) => seq![Some(e)],
            None => Seq::empty(),
        }),
    )
}

/// The command that persists a transaction under an identifier, for a statement.
pub open spec fn transaction_command(
    id: Seq<char>,
    statement_id: Seq<char>,
    t: TransactionView,
) -> SqlCommandView {
    let row = encoded(t);
    command(
        INSERT_TRANSACTION@,
        seq![
            Some(id),
            Some(statement_id),
            Some(row.posting_date),
            Some(row.transaction_date),
            Some(row.description),
            row.money_in,
            row.money_out,
            Some(row.balance),
            row.category,
            Some(row.transaction_type),
        ],
    )
}

/// The two commands that persist a statement: its document first, stamped with the instant
/// of the import, then the statement, which refers to the document.
pub open spec fn statement_commands(
    document_id: Seq<char>,
    statement_id: Seq<char>,
    user_id: Seq<char>,
    filename: Seq<char>,
    file_path: Seq<char>,
    now: Seq<char>,
    start_date: Seq<char>,
    end_date: Seq<char>,
) -> Seq<SqlCommandView> {
    seq![
        command(
            INSERT_DOCUMENT@,
            seq![Some(document_id), Some(user_id), Some(filename), Some(file_path), Some(now)],
        ),
        command(
            INSERT_STATEMENT@,
            seq![
                Some(statement_id),
                Some(user_id),
                Some(document_id),
                Some(start_date),
                Some(end_date),
            ],
        ),
    ]
}

/// Whether the two commands persist a statement of the user for the file, under the
/// statement's identifier, with whatever document identifier, file name and instant they bind.
pub open spec fn is_statement_unit(
    commands: Seq<SqlCommandView>,
    statement_id: Seq<char>,
    user_id: Seq<char>,
    file_path: Seq<char>,
    start_date: Seq<char>,
    end_date: Seq<char>,
) -> bool {
    &&& commands.len() == 2
    &&& commands == statement_commands(
        bound(commands[0], 0),
        statement_id,
        user_id,
        bound(commands[0], 2),
        file_path,
        bound(commands[0], 4),
        start_date,
        end_date,
    )
    &&& is_canonical(bound(commands[0], 4))
    &&& forall|name: Seq<char>| #[trigger]
        names_file(file_path, name) ==> bound(commands[0], 2) == name
}

/// The failure of an operation that needs the present instant where the clock gives none.
pub open spec fn clock_failure() -> DbErrorView {
    DbErrorView::DateError(CLOCK_FAILED@)
}

/// The text bound to placeholder `i` of a command.
pub open spec fn bound(c: SqlCommandView, i: int) -> Seq<char> {
    c.params[i]->Some_0
}

/// An unknown user and a wrong password fail alike: nothing in the outcome tells which it was.
pub proof fn lemma_failures_alike(
    username: Seq<char>,
    row: CredentialRow,
    verdict: Result<bool, Seq<char>>,
    created: Result<Seq<char>, Seq<char>>,
    other_created: Result<Seq<char>, Seq<char>>,
)
    ensures
        authentication(username, None, verdict, created) == authentication(
            username,
            Some(row),
            Ok(false),
            other_created,
        ),
        authentication(username, None, verdict, created) is Err,
        authentication(username, None, verdict, created)->Err_0 == DbErrorView::AuthError,
{
}

/// A login succeeds exactly when the user is known, the password fits the stored hash and the
/// stored instant can be read; it then yields the user of the row found.
pub proof fn lemma_login_succeeds(
    username: Seq<char>,
    row: Option<CredentialRow>,
    verdict: Result<bool, Seq<char>>,
    created: Result<Seq<char>, Seq<char>>,
)
    ensures
        authentication(username, row, verdict, created) is Ok <==> row is Some && verdict
            == verdict_view(Ok(true)) && created is Ok,
        authentication(username, row, verdict, created) matches Ok(user) ==> user.id
            == row->Some_0.id@ && user.username == username && user.created_at == created->Ok_0,
{
}

/// Once a listing of users has failed, more rows do not mend it.
proof fn lemma_users_failure_stays(rows: Seq<UserRow>, k: int)
    requires
        0 <= k <= rows.len(),
        users_of(rows.take(k)) is Err,
    ensures
        users_of(rows) == users_of(rows.take(k)),
    decreases rows.len() - k,
{
    if k == rows.len() {
        assert(rows.take(k) == rows);
    } else {
        assert(rows.drop_last().take(k) == rows.take(k));
        lemma_users_failure_stays(rows.drop_last(), k);
    }
}

/// Once a listing of documents has failed, more rows do not mend it.
proof fn lemma_documents_failure_stays(user_id: Seq<char>, rows: Seq<DocumentRow>, k: int)
    requires
        0 <= k <= rows.len(),
        documents_of(user_id, rows.take(k)) is Err,
    ensures
        documents_of(user_id, rows) == documents_of(user_id, rows.take(k)),
    decreases rows.len() - k,
{
    if k == rows.len() {
        assert(rows.take(k) == rows);
    } else {
        assert(rows.drop_last().take(k) == rows.take(k));
        lemma_documents_failure_stays(user_id, rows.drop_last(), k);
    }
}

/// The command that lists all users, newest first.
pub fn list_users_query() -> (c: SqlCommand)
    ensures
        c@ == command(SELECT_USERS@, Seq::empty()),
{
    let c = command_of(SELECT_USERS, Vec::new());
    assert(c@.params =~= Seq::empty());
    c
}

/// Builds the user of a row, given the reading of the row's instant.
pub fn user_from_row(row: &UserRow, created: Result<String, String>) -> (r: Result<User, DbError>)
    ensures
        user_result(r) == user_of(*row, text_result(created)),
{
    match created {
        Ok(created_at) => Ok(
            User { id: row.id.clone(), username: row.username.clone(), created_at },
        ),
        Err(e) => Err(DbError::DateError(e)),
    }
}

/// Reads the users out of the rows of a listing, in the order of the rows. The first row
/// whose instant cannot be read fails the whole listing.
pub fn list_users(rows: &Vec<UserRow>) -> (r: Result<Vec<User>, DbError>)
    ensures
        (match r {
            Ok(users) => Ok(user_views(users@)),
            Err(e) => Err(e@),
        }) == users_of(rows@),
{
    let mut users: Vec<User> = Vec::new();
    let mut i: usize = 0;
    proof {
        assert(user_views(users@) =~= Seq::empty());
        assert(rows@.take(0).len() == 0);
    }
    while i < rows.len()
        invariant
            i <= rows.len(),
            users_of(rows@.take(i as int)) == Ok::<Seq<UserView>, DbErrorView>(
                user_views(users@),
            ),
        decreases rows.len() - i,
    {
        proof {
            assert(rows@.take(i + 1).drop_last() == rows@.take(i as int));
            assert(rows@.take(i + 1).last() == rows@[i as int]);
        }
        match user_from_row(&rows[i], read_instant(rows[i].created_at.as_str())) {
            Ok(u) => {
                let ghost before = users@;
                users.push(u);
                assert(user_views(users@) =~= user_views(before).push(u@));
            },
            Err(e) => {
                proof {
                    assert(users_of(rows@.take(i + 1)) == Err::<Seq<UserView>, DbErrorView>(e@));
                    lemma_users_failure_stays(rows@, i + 1);
                }
                return Err(e);
            },
        }
        i += 1;
    }
    proof {
        assert(rows@.take(i as int) == rows@);
    }
    Ok(users)
}

/// Builds a new user and the command that persists it, from an identifier, the hash of the
/// password and the present instant.
pub fn new_user(id: String, username: &str, password_hash: String, now: String) -> (r: (
    User,
    SqlCommand,
))
    ensures
        r.0@ == (UserView { id: id@, username: username@, created_at: now@ }),
        r.1@ == command(
            INSERT_USER@,
            seq![Some(id@), Some(username@), Some(password_hash@), Some(now@)],
        ),
{
    let mut params: Vec<SqlValue> = Vec::new();
    params.push(text(id.as_str()));
    params.push(text(username));
    params.push(SqlValue::Text(password_hash));
    params.push(text(now.as_str()));
    let c = command_of(INSERT_USER, params);
    assert(c@.params =~= seq![Some(id@), Some(username@), Some(password_hash@), Some(now@)]);
    (User { id, username: username.to_string(), created_at: now }, c)
}

/// Registers a user: hashes the password under a fresh salt, picks a fresh identifier and
/// the present instant, and hands out the user with the command that persists it. The
/// password itself is not part of the command. That the name is not taken is the engine's
/// to check when it runs the command.
///
/// Fails where the password cannot be hashed, and where the clock gives no instant. What is
/// persisted lets the user in: the hash fits the password and the instant can be read.
pub fn create_user(username: &str, password: &str) -> (r: Result<(User, SqlCommand), DbError>)
    ensures
        match r {
            Ok((user, c)) => {
                &&& user@.username == username@
                &&& c@.sql == INSERT_USER@
                &&& c@.params.len() == 4
                &&& c@.params[0] == Some(user@.id)
                &&& c@.params[1] == Some(username@)
                &&& c@.params[2] is Some
                &&& bcrypt_verify(password@, c@.params[2]->Some_0) == verdict_view(Ok(true))
                &&& c@.params[3] == Some(user@.created_at)
                &&& is_canonical(user@.created_at)
            },
            Err(e) => e@ is Bcrypt || e@ == clock_failure(),
        },
{
    match hash_password(password) {
        Ok(password_hash) => {
            let id = fresh_id();
            match utc_now() {
                Some(now) => Ok(new_user(id, username, password_hash, now)),
                None => Err(DbError::DateError(CLOCK_FAILED.to_string())),
            }
        },
        Err(e) => Err(DbError::Bcrypt(e)),
    }
}

/// The outcome of a login that finds a row for the user name.
pub open spec fn logged_in(username: Seq<char>, password: Seq<char>, row: CredentialRow) -> Result<
    UserView,
    DbErrorView,
> {
    authentication(
        username,
        Some(row),
        bcrypt_verify(password, row.password_hash@),
        rfc3339_in_utc(row.created_at@),
    )
}

/// A user who was registered is let in with the password of the registration, as the user
/// that the registration handed out: whatever `create_user` persists, a login that finds it
/// succeeds.
pub proof fn lemma_registered_user_logs_in(
    username: Seq<char>,
    password: Seq<char>,
    user: UserView,
    row: CredentialRow,
)
    requires
        user.username == username,
        row.id@ == user.id,
        row.created_at@ == user.created_at,
        bcrypt_verify(password, row.password_hash@) == verdict_view(Ok(true)),
        is_canonical(user.created_at),
    ensures
        logged_in(username, password, row) is Ok,
        logged_in(username, password, row)->Ok_0 == user,
{
}

/// The command that looks up the credentials kept for a user name.
pub fn find_credentials_query(username: &str) -> (c: SqlCommand)
    ensures
        c@ == command(SELECT_CREDENTIALS@, seq![Some(username@)]),
{
    let mut params: Vec<SqlValue> = Vec::new();
    params.push(text(username));
    let c = command_of(SELECT_CREDENTIALS, params);
    assert(c@.params =~= seq![Some(username@)]);
    c
}

/// Decides a login from the row found for the user name, the verdict on the password and
/// the reading of the row's instant.
pub fn authentication_outcome(
    username: &str,
    row: Option<CredentialRow>,
    verdict: Result<bool, String>,
    created: Result<String, String>,
) -> (r: Result<User, DbError>)
    ensures
        user_result(r) == authentication(
            username@,
            row,
            verdict_view(verdict),
            text_result(created),
        ),
{
    match row {
        None => Err(DbError::AuthError),
        Some(row) => match verdict {
            Err(e) => Err(DbError::Bcrypt(e)),
            Ok(false) => Err(DbError::AuthError),
            Ok(true) => match created {
                Ok(created_at) => Ok(
                    User { id: row.id, username: username.to_string(), created_at },
                ),
                Err(e) => Err(DbError::DateError(e)),
            },
        },
    }
}

/// Decides a login from the row found for the user name, `None` where the lookup found no
/// row or failed. The password is checked against the row's hash; a user that is not known
/// and a password that does not fit fail alike.
pub fn authenticate_user(username: &str, password: &str, row: Option<CredentialRow>) -> (r: Result<
    User,
    DbError,
>)
    ensures
        user_result(r) == (match row {
            None => Err(DbErrorView::AuthError),
            Some(found) => authentication(
                username@,
                row,
                bcrypt_verify(password@, found.password_hash@),
                rfc3339_in_utc(found.created_at@),
            ),
        }),
{
    match row {
        None => authentication_outcome(username, None, Ok(false), Ok(String::new())),
        Some(found) => {
            let verdict = verify_password(password, found.password_hash.as_str());
            match verdict {
                Ok(true) => {
                    let created = read_instant(found.created_at.as_str());
                    authentication_outcome(username, Some(found), Ok(true), created)
                },
                _ => authentication_outcome(username, Some(found), verdict, Ok(String::new())),
            }
        },
    }
}

/// Builds a document and the command that persists it, from an identifier and the present
/// instant.
pub fn new_document(id: String, now: String, user_id: &str, filename: &str, file_path: &str) -> (r:
    (Document, SqlCommand))
    ensures
        r.0@ == (DocumentView {
            id: id@,
            user_id: user_id@,
            filename: filename@,
            file_path: file_path@,
            uploaded_at: now@,
        }),
        r.1@ == command(
            INSERT_DOCUMENT@,
            seq![Some(id@), Some(user_id@), Some(filename@), Some(file_path@), Some(now@)],
        ),
{
    let mut params: Vec<SqlValue> = Vec::new();
    params.push(text(id.as_str()));
    params.push(text(user_id));
    params.push(text(filename));
    params.push(text(file_path));
    params.push(text(now.as_str()));
    let c = command_of(INSERT_DOCUMENT, params);
    assert(c@.params =~= seq![
        Some(id@),
        Some(user_id@),
        Some(filename@),
        Some(file_path@),
        Some(now@),
    ]);
    (
        Document {
            id,
            user_id: user_id.to_string(),
            filename: filename.to_string(),
            file_path: file_path.to_string(),
            uploaded_at: now,
        },
        c,
    )
}

/// Records an uploaded file for a user: picks a fresh identifier and the present instant, and
/// hands out the document with the command that persists it. Fails only where the clock
/// gives no instant.
pub fn store_document(user_id: &str, filename: &str, file_path: &str) -> (r: Result<
    (Document, SqlCommand),
    DbError,
>)
    ensures
        match r {
            Ok((document, c)) => {
                &&& document@.user_id == user_id@
                &&& document@.filename == filename@
                &&& document@.file_path == file_path@
                &&& is_canonical(document@.uploaded_at)
                &&& c@ == command(
                    INSERT_DOCUMENT@,
                    seq![
                        Some(document@.id),
                        Some(user_id@),
                        Some(filename@),
                        Some(file_path@),
                        Some(document@.uploaded_at),
                    ],
                )
            },
            Err(e) => e@ == clock_failure(),
        },
{
    let id = fresh_id();
    match utc_now() {
        Some(now) => Ok(new_document(id, now, user_id, filename, file_path)),
        None => Err(DbError::DateError(CLOCK_FAILED.to_string())),
    }
}

/// Records an uploaded file for a user under the name that the file has in its path, and
/// under `unknown` where the path names none. Fails only where the clock gives no instant.
pub fn store_document_at(user_id: &str, file_path: &str) -> (r: Result<
    (Document, SqlCommand),
    DbError,
>)
    ensures
        match r {
            Ok((document, c)) => {
                &&& document@.user_id == user_id@
                &&& document@.file_path == file_path@
                &&& is_canonical(document@.uploaded_at)
                &&& forall|name: Seq<char>| #[trigger]
                    names_file(file_path@, name) ==> document@.filename == name
                &&& c@ == command(
                    INSERT_DOCUMENT@,
                    seq![
                        Some(document@.id),
                        Some(user_id@),
                        Some(document@.filename),
                        Some(file_path@),
                        Some(document@.uploaded_at),
                    ],
                )
            },
            Err(e) => e@ == clock_failure(),
        },
{
    let filename = file_name_from(path_file_name(file_path));
    store_document(user_id, filename.as_str(), file_path)
}

/// The command that lists the documents of a user, newest first.
pub fn get_user_documents_query(user_id: &str) -> (c: SqlCommand)
    ensures
        c@ == command(SELECT_DOCUMENTS@, seq![Some(user_id@)]),
{
    let mut params: Vec<SqlValue> = Vec::new();
    params.push(text(user_id));
    let c = command_of(SELECT_DOCUMENTS, params);
    assert(c@.params =~= seq![Some(user_id@)]);
    c
}

/// Builds the document of a row, given the reading of the row's instant.
pub fn document_from_row(user_id: &str, row: &DocumentRow, uploaded: Result<String, String>) -> (r:
    Result<Document, DbError>)
    ensures
        (match r {
            Ok(d) => Ok(d@),
            Err(e) => Err(e@),
        }) == document_of(user_id@, *row, text_result(uploaded)),
{
    match uploaded {
        Ok(uploaded_at) => Ok(
            Document {
                id: row.id.clone(),
                user_id: user_id.to_string(),
                filename: row.filename.clone(),
                file_path: row.file_path.clone(),
                uploaded_at,
            },
        ),
        Err(e) => Err(DbError::DateError(e)),
    }
}

/// Reads the documents of a user out of the rows of a listing, in the order of the rows.
/// The first row whose instant cannot be read fails the whole listing.
pub fn get_user_documents(user_id: &str, rows: &Vec<DocumentRow>) -> (r: Result<
    Vec<Document>,
    DbError,
>)
    ensures
        (match r {
            Ok(documents) => Ok(document_views(documents@)),
            Err(e) => Err(e@),
        }) == documents_of(user_id@, rows@),
{
    let mut documents: Vec<Document> = Vec::new();
    let mut i: usize = 0;
    proof {
        assert(document_views(documents@) =~= Seq::empty());
        assert(rows@.take(0).len() == 0);
    }
    while i < rows.len()
        invariant
            i <= rows.len(),
            documents_of(user_id@, rows@.take(i as int)) == Ok::<Seq<DocumentView>, DbErrorView>(
                document_views(documents@),
            ),
        decreases rows.len() - i,
    {
        proof {
            assert(rows@.take(i + 1).drop_last() == rows@.take(i as int));
            assert(rows@.take(i + 1).last() == rows@[i as int]);
        }
        match document_from_row(user_id, &rows[i], read_instant(rows[i].uploaded_at.as_str())) {
            Ok(d) => {
                let ghost before = documents@;
                documents.push(d);
                assert(document_views(documents@) =~= document_views(before).push(d@));
            },
            Err(e) => {
                proof {
                    assert(documents_of(user_id@, rows@.take(i + 1)) == Err::<
                        Seq<DocumentView>,
                        DbErrorView,
                    >(e@));
                    lemma_documents_failure_stays(user_id@, rows@, i + 1);
                }
                return Err(e);
            },
        }
        i += 1;
    }
    proof {
        assert(rows@.take(i as int) == rows@);
    }
    Ok(documents)
}

/// Builds the two commands that persist a statement under the identifiers given, with the
/// file name found in the path, if any, and the instant of the import.
pub fn statement_inserts(
    document_id: &str,
    statement_id: &str,
    user_id: &str,
    file_name: Option<String>,
    file_path: &str,
    now: &str,
    start_date: &str,
    end_date: &str,
) -> (commands: Vec<SqlCommand>)
    ensures
        command_views(commands@) == statement_commands(
            document_id@,
            statement_id@,
            user_id@,
            match file_name {
                Some(name) => name@,
                None => UNKNOWN_FILE_NAME@,
            },
            file_path@,
            now@,
            start_date@,
            end_date@,
        ),
{
    let filename = file_name_from(file_name);
    let mut first: Vec<SqlValue> = Vec::new();
    first.push(text(document_id));
    first.push(text(user_id));
    first.push(text(filename.as_str()));
    first.push(text(file_path));
    first.push(text(now));
    let document = command_of(INSERT_DOCUMENT, first);
    assert(document@.params =~= seq![
        Some(document_id@),
        Some(user_id@),
        Some(filename@),
        Some(file_path@),
        Some(now@),
    ]);
    let mut second: Vec<SqlValue> = Vec::new();
    second.push(text(statement_id));
    second.push(text(user_id));
    second.push(text(document_id));
    second.push(text(start_date));
    second.push(text(end_date));
    let statement = command_of(INSERT_STATEMENT, second);
    assert(statement@.params =~= seq![
        Some(statement_id@),
        Some(user_id@),
        Some(document_id@),
        Some(start_date@),
        Some(end_date@),
    ]);
    let mut commands: Vec<SqlCommand> = Vec::new();
    commands.push(document);
    commands.push(statement);
    assert(command_views(commands@) =~= seq![document@, statement@]);
    commands
}

/// Records an import: picks fresh identifiers for the document and the statement and hands
/// out the statement's identifier with the two commands that persist both. The document is
/// entered under the name that the file has in its path and stamped with the present
/// instant, as an uploaded document is. The two are one unit: the caller runs them in one
/// transaction, so that both rows exist or neither. Fails only where the clock gives no
/// instant.
pub fn store_statement(user_id: &str, file_path: &str, start_date: &str, end_date: &str) -> (r:
    Result<(String, Vec<SqlCommand>), DbError>)
    ensures
        match r {
            Ok((statement_id, commands)) => is_statement_unit(
                command_views(commands@),
                statement_id@,
                user_id@,
                file_path@,
                start_date@,
                end_date@,
            ),
            Err(e) => e@ == clock_failure(),
        },
{
    let document_id = fresh_id();
    let statement_id = fresh_id();
    let now = match utc_now() {
        Some(now) => now,
        None => {
            return Err(DbError::DateError(CLOCK_FAILED.to_string()));
        },
    };
    let file_name = path_file_name(file_path);
    let ghost filename = match crate::model::optional_text(file_name) {
        Some(name) => name,
        None => UNKNOWN_FILE_NAME@,
    };
    let commands = statement_inserts(
        document_id.as_str(),
        statement_id.as_str(),
        user_id,
        file_name,
        file_path,
        now.as_str(),
        start_date,
        end_date,
    );
    proof {
        let want = statement_commands(
            document_id@,
            statement_id@,
            user_id@,
            filename,
            file_path@,
            now@,
            start_date@,
            end_date@,
        );
        assert(command_views(commands@) == want);
        assert(want[0].params[0] == Some(document_id@));
        assert(want[0].params[2] == Some(filename));
        assert(want[0].params[4] == Some(now@));
    }
    Ok((statement_id, commands))
}

/// Builds the command that persists one transaction under an identifier, for a statement.
pub fn transaction_insert(id: &str, statement_id: &str, transaction: &Transaction) -> (c:
    SqlCommand)
    ensures
        c@ == transaction_command(id@, statement_id@, transaction@),
{
    let row = encode_transaction(transaction);
    let mut params: Vec<SqlValue> = Vec::new();
    params.push(text(id));
    params.push(text(statement_id));
    params.push(SqlValue::Text(row.posting_date));
    params.push(SqlValue::Text(row.transaction_date));
    params.push(SqlValue::Text(row.description));
    params.push(optional(row.money_in));
    params.push(optional(row.money_out));
    params.push(SqlValue::Text(row.balance));
    params.push(optional(row.category));
    params.push(SqlValue::Text(row.transaction_type));
    let c = command_of(INSERT_TRANSACTION, params);
    assert(c@.params =~= transaction_command(id@, statement_id@, transaction@).params);
    c
}

/// Builds the commands that persist the transactions of a statement, one for each, in order,
/// each under a fresh identifier. The batch is one unit: the caller runs it in one
/// transaction, so that all rows exist or none.
pub fn store_transactions(statement_id: &str, transactions: &Vec<Transaction>) -> (commands: Vec<
    SqlCommand,
>)
    ensures
        commands.len() == transactions.len(),
        forall|i: int|
            0 <= i < commands.len() ==> (#[trigger] commands@[i])@ == transaction_command(
                bound(commands@[i]@, 0),
                statement_id@,
                transactions@[i]@,
            ),
{
    let mut commands: Vec<SqlCommand> = Vec::new();
    let mut i: usize = 0;
    while i < transactions.len()
        invariant
            i <= transactions.len(),
            commands.len() == i,
            forall|j: int|
                0 <= j < commands.len() ==> (#[trigger] commands@[j])@ == transaction_command(
                    bound(commands@[j]@, 0),
                    statement_id@,
                    transactions@[j]@,
                ),
        decreases transactions.len() - i,
    {
        let id = fresh_id();
        let c = transaction_insert(id.as_str(), statement_id, &transactions[i]);
        assert(c@.params[0] == Some(id@));
        commands.push(c);
        i += 1;
    }
    commands
}

/// The commands that persist one import: the document, the statement, then one command for
/// each transaction. They are one unit, which the caller runs in one transaction of the
/// engine, so that the document, the statement and all of the ledger exist, or nothing of
/// the import does.
#[derive(Debug, Clone, PartialEq, Eq)]
pub struct StatementImport {
    pub statement_id: String,
    pub commands: Vec<SqlCommand>,
}

/// Records an import with its ledger, as one unit. Every transaction is bound to the
/// statement that the unit persists, and the statement to the document that it persists
/// with it. Fails only where the clock gives no instant.
pub fn store_statement_data(
    user_id: &str,
    file_path: &str,
    start_date: &str,
    end_date: &str,
    transactions: &Vec<Transaction>,
) -> (r: Result<StatementImport, DbError>)
    ensures
        match r {
            Ok(import) => {
                &&& import.commands.len() == 2 + transactions.len()
                &&& is_statement_unit(
                    command_views(import.commands@).subrange(0, 2),
                    import.statement_id@,
                    user_id@,
                    file_path@,
                    start_date@,
                    end_date@,
                )
                &&& forall|i: int|
                    0 <= i < transactions.len() ==> (#[trigger] import.commands@[2 + i])@
                        == transaction_command(
                        bound(import.commands@[2 + i]@, 0),
                        import.statement_id@,
                        transactions@[i]@,
                    )
            },
            Err(e) => e@ == clock_failure(),
        },
{
    let (statement_id, mut commands) = match store_statement(
        user_id,
        file_path,
        start_date,
        end_date,
    ) {
        Ok(unit) => unit,
        Err(e) => {
            return Err(e);
        },
    };
    let ghost unit = command_views(commands@);
    let mut batch = store_transactions(statement_id.as_str(), transactions);
    let ghost rows = batch@;
    commands.append(&mut batch);
    proof {
        assert(command_views(commands@).subrange(0, 2) =~= unit);
        assert forall|i: int| 0 <= i < transactions.len() implies (#[trigger] commands@[2
            + i])@ == transaction_command(
            bound(commands@[2 + i]@, 0),
            statement_id@,
            transactions@[i]@,
        ) by {
            assert(commands@[2 + i] == rows[i]);
        }
    }
    Ok(StatementImport { statement_id, commands })
}

/// Builds the command that lists the transactions of a user, newest transaction date first.
///
/// A bound that is given keeps the rows whose transaction date, by its first ten characters
/// and compared as text, is not before `start_date` and not after `end_date`.
pub fn get_user_transactions_query(
    user_id: &str,
    start_date: Option<String>,
    end_date: Option<String>,
) -> (c: SqlCommand)
    ensures
        c@ == user_transactions_command(
            user_id@,
            crate::model::optional_text(start_date),
            crate::model::optional_text(end_date),
        ),
{
    let mut sql = String::from_str(SELECT_USER_TRANSACTIONS);
    let mut params: Vec<SqlValue> = Vec::new();
    params.push(text(user_id));
    match start_date {
        Some(start) => {
            sql.append(FROM_DATE_FILTER);
            params.push(SqlValue::Text(start));
        },
        None => {},
    }
    match end_date {
        Some(end) => {
            sql.append(TO_DATE_FILTER);
            params.push(SqlValue::Text(end));
        },
        None => {},
    }
    sql.append(NEWEST_FIRST);
    let c = SqlCommand { sql, params };
    proof {
        let want = user_transactions_command(
            user_id@,
            crate::model::optional_text(start_date),
            crate::model::optional_text(end_date),
        );
        assert(c@.sql =~= want.sql);
        assert(c@.params =~= want.params);
    }
    c
}

/// Reads the transactions of a user out of the rows that the engine handed back, in the
/// order in which it handed them back.
pub fn get_user_transactions(rows: &Vec<TransactionRow>) -> (ts: Vec<Transaction>)
    ensures
        transaction_views(ts@) == decoded_all(row_views(rows@)),
{
    decode_transactions(rows)
}

/// The command that lists the statements of a user, newest first.
pub fn get_user_statements_query(user_id: &str) -> (c: SqlCommand)
    ensures
        c@ == command(SELECT_STATEMENTS@, seq![Some(user_id@)]),
{
    let mut params: Vec<SqlValue> = Vec::new();
    params.push(text(user_id));
    let c = command_of(SELECT_STATEMENTS, params);
    assert(c@.params =~= seq![Some(user_id@)]);
    c
}

/// Reads the statements of a user out of the rows of a listing, in the order of the rows.
pub fn get_user_statements(rows: &Vec<StatementRow>) -> (statements: Vec<Statement>)
    ensures
        statements.len() == rows.len(),
        forall|i: int|
            0 <= i < rows.len() ==> (#[trigger] statements@[i])@ == statement_of(rows@[i]),
{
    let mut statements: Vec<Statement> = Vec::new();
    let mut i: usize = 0;
    while i < rows.len()
        invariant
            i <= rows.len(),
            statements.len() == i,
            forall|j: int| 0 <= j < i ==> (#[trigger] statements@[j])@ == statement_of(rows@[j]),
        decreases rows.len() - i,
    {
        let row = &rows[i];
        statements.push(
            Statement {
                id: row.id.clone(),
                user_id: row.user_id.clone(),
                file_path: row.file_path.clone(),
                start_date: row.start_date.clone(),
                end_date: row.end_date.clone(),
                uploaded_at: row.uploaded_at.clone(),
            },
        );
        i += 1;
    }
    statements
}

/// The command that lists the transactions of one statement, in the order in which they
/// were persisted.
pub fn get_statement_transactions_query(statement_id: &str) -> (c: SqlCommand)
    ensures
        c@ == command(SELECT_STATEMENT_TRANSACTIONS@, seq![Some(statement_id@)]),
{
    let mut params: Vec<SqlValue> = Vec::new();
    params.push(text(statement_id));
    let c = command_of(SELECT_STATEMENT_TRANSACTIONS, params);
    assert(c@.params =~= seq![Some(statement_id@)]);
    c
}

/// Reads the transactions of a statement out of the rows that the engine handed back, and
/// orders them by descending posting date. Transactions of one day, and those whose posting
/// date cannot be read day-first, keep the order of their rows.
pub fn get_statement_transactions(rows: &Vec<TransactionRow>) -> (ts: Vec<Transaction>)
    ensures
        is_ordered_ledger(decoded_all(row_views(rows@)), transaction_views(ts@)),
        ts.len() == rows.len(),
{
    order_by_posting_date(decode_transactions(rows))
}

} // verus!
