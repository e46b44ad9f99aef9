//! A ledger of bank statements.
//!
//! Statements come as the text of a typeset document or as a CSV export, and are read into
//! transactions with a summary (`pdf`, `csv_import`, `ingest`, `ledger`). The store keeps users,
//! documents, statements and transactions in a relational engine; this library decides what
//! is said to the engine and reads what it answers (`sql`, `store`, `rows`, `atomic`), and
//! leaves the saying to its caller. Amounts are whole hundredths of the currency unit.

pub mod atomic;
pub mod clock;
pub mod credentials;
pub mod csv_import;
pub mod dates;
pub mod errors;
pub mod ids;
pub mod ingest;
pub mod ledger;
pub mod model;
pub mod money;
pub mod paths;
pub mod pattern;
pub mod pdf;
pub mod records;
pub mod requests;
pub mod rows;
pub mod sorting;
pub mod sql;
pub mod store;
pub mod summary;
pub mod text;
