//! The way of a statement from a file to a ledger: the format is chosen by the file's
//! extension, the caller fetches what the format asks for, and the parser for it is run.

use crate::csv_import::{is_csv_outcome, process_csv_content};
use crate::model::{StatementData, StatementDataView};
use crate::paths::UNSUPPORTED_FORMAT;
use crate::pdf::{is_pdf_outcome, process_pdf_content, statement_result};
use vstd::prelude::*;

verus! {

/// What was fetched for a file, by its format.
#[derive(Debug, Clone, PartialEq, Eq)]
pub enum StatementSource {
    /// The text extracted from a typeset document.
    PdfText(String),
    /// The bytes of a CSV export.
    CsvBytes(Vec<u8>),
    /// Nothing: the file is of no format that can be read.
    Unsupported,
}

/// Whether `r` is what reading the source gives. A file of no supported format fails at once,
/// without any attempt to read it.
pub open spec fn is_outcome(source: StatementSource, r: Result<StatementDataView, Seq<char>>)
    -> bool {
    match source {
        StatementSource::PdfText(text) => is_pdf_outcome(text@, r),
        StatementSource::CsvBytes(content) => is_csv_outcome(content@, r),
        StatementSource::Unsupported => r == Err::<StatementDataView, Seq<char>>(
            UNSUPPORTED_FORMAT@,
        ),
    }
}

/// Reads a statement from what was fetched for its file.
pub fn process_statement(source: &StatementSource) -> (r: Result<StatementData, String>)
    ensures
        is_outcome(*source, statement_result(r)),
{
    match source {
        StatementSource::PdfText(text) => process_pdf_content(text.as_str()),
        StatementSource::CsvBytes(content) => process_csv_content(content.as_slice()),
        StatementSource::Unsupported => Err(UNSUPPORTED_FORMAT.to_string()),
    }
}

} // verus!
