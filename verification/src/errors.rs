//! The failures of the store.

use vstd::prelude::*;
use vstd::string::StringExecFns;

verus! {

/// Said before the engine's message.
pub const SQLITE_FAILED: &'static str = "Database error: ";

/// Said before the pool's message.
pub const POOL_FAILED: &'static str = "Connection pool error: ";

/// Said before the hasher's message.
pub const BCRYPT_FAILED: &'static str = "Password hashing error: ";

/// Said of every login that is turned down, whatever the cause.
pub const AUTHENTICATION_FAILED: &'static str = "Authentication failed";

/// Said before the reason why an instant cannot be read.
pub const DATE_FAILED: &'static str = "Date parsing error: ";

/// The reason given where the system clock gives no instant that can be written: it is set
/// before 1970 or past the year 9999.
pub const CLOCK_FAILED: &'static str = "system clock is out of range";

/// Why an operation of the store failed. The engine's, the pool's and the hasher's failures
/// carry the message of the failure.
#[derive(Debug, Clone, PartialEq, Eq)]
pub enum DbError {
    /// The engine refused a statement.
    Sqlite(String),
    /// No connection could be had.
    Pool(String),
    /// The password could not be hashed, or the stored hash not be read.
    Bcrypt(String),
    /// The user is unknown or the password wrong: the two are not told apart.
    AuthError,
    /// A stored instant could not be read, or the clock gave none to store.
    DateError(String),
}

/// The value of a [`DbError`].
pub enum DbErrorView {
    Sqlite(Seq<char>),
    Pool(Seq<char>),
    Bcrypt(Seq<char>),
    AuthError,
    DateError(Seq<char>),
}

impl View for DbError {
    type V = DbErrorView;

    open spec fn view(&self) -> DbErrorView {
        match self {
            DbError::Sqlite(m) => DbErrorView::Sqlite(m@),
            DbError::Pool(m) => DbErrorView::Pool(m@),
            DbError::Bcrypt(m) => DbErrorView::Bcrypt(m@),
            DbError::AuthError => DbErrorView::AuthError,
            DbError::DateError(m) => DbErrorView::DateError(m@),
        }
    }
}

impl DbErrorView {
    /// The message shown for the failure.
    pub open spec fn message(self) -> Seq<char> {
        match self {
            DbErrorView::Sqlite(m) => SQLITE_FAILED@ + m,
            DbErrorView::Pool(m) => POOL_FAILED@ + m,
            DbErrorView::Bcrypt(m) => BCRYPT_FAILED@ + m,
            DbErrorView::AuthError => AUTHENTICATION_FAILED@,
            DbErrorView::DateError(m) => DATE_FAILED@ + m,
        }
    }
}

impl DbError {
    /// The message shown for the failure.
    pub fn message(&self) -> (m: String)
        ensures
            m@ == self@.message(),
    {
        match self {
            DbError::Sqlite(m) => String::from_str(SQLITE_FAILED).concat(m.as_str()),
            DbError::Pool(m) => String::from_str(POOL_FAILED).concat(m.as_str()),
            DbError::Bcrypt(m) => String::from_str(BCRYPT_FAILED).concat(m.as_str()),
            DbError::AuthError => AUTHENTICATION_FAILED.to_string(),
            DbError::DateError(m) => String::from_str(DATE_FAILED).concat(m.as_str()),
        }
    }
}

} // verus!
