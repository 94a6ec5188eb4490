//! The trusted boundary to the SQLite engine: the type declarations and
//! thin wrappers through which the verified library calls rusqlite. Each
//! wrapper's body only makes the call and converts its rows or errors.

use vstd::prelude::*;
use crate::records::HymnRecord;
use crate::records::ScriptureRecord;

verus! {

/// rusqlite's handle to an open database session, opaque to the library.
#[verifier::external_type_specification]
#[verifier::external_body]
pub struct ExConnection(rusqlite::Connection);

/// rusqlite's error type, opaque to the library.
#[verifier::external_type_specification]
#[verifier::external_body]
pub struct ExSqliteError(rusqlite::Error);

/// Relies on rusqlite::Connection::open: opens the database file at the
/// given path, creating it if absent, and fails if it cannot be opened.
#[verifier::external_body]
pub(crate) fn open_connection(path: &String) -> Result<rusqlite::Connection, rusqlite::Error> {
    rusqlite::Connection::open(path.as_str())
}

/// Relies on the Display impl of rusqlite::Error for a human-readable
/// description of a failure.
#[verifier::external_body]
pub(crate) fn error_text(e: &rusqlite::Error) -> String {
    format!("{}", e)
}

/// Relies on rusqlite::Error's variants: tells a failure to read a column
/// value into the requested Rust type (FromSqlConversionFailure,
/// IntegralValueOutOfRange, Utf8Error, InvalidColumnType) apart from a
/// failure to prepare or run the statement.
#[verifier::external_body]
pub(crate) fn is_decode_error(e: &rusqlite::Error) -> bool {
    matches!(
        e,
        rusqlite::Error::FromSqlConversionFailure(..)
            | rusqlite::Error::IntegralValueOutOfRange(..)
            | rusqlite::Error::Utf8Error(..)
            | rusqlite::Error::InvalidColumnType(..)
    )
}

/// Relies on rusqlite::Connection::prepare, Statement::query_map and
/// Row::get: reads every row of the hymns table, decoding number and
/// title, in whatever order the engine returns rows.
#[verifier::external_body]
pub(crate) fn fetch_hymn_rows(
    conn: &rusqlite::Connection,
) -> Result<Vec<HymnRecord>, rusqlite::Error> {
    let mut stmt = conn.prepare("SELECT number, title FROM hymns")?;
    let rows = stmt.query_map([], |row| {
        Ok(HymnRecord { number: row.get(0)?, title: row.get(1)? })
    })?;
    rows.collect()
}

/// Relies on rusqlite::Connection::prepare, Statement::query_map and
/// Row::get: reads every row of the scriptures table, decoding book,
/// chapter, verse start and text, in whatever order the engine returns
/// rows.
#[verifier::external_body]
pub(crate) fn fetch_scripture_rows(
    conn: &rusqlite::Connection,
) -> Result<Vec<ScriptureRecord>, rusqlite::Error> {
    let mut stmt = conn.prepare("SELECT book, chapter, verse_start, text FROM scriptures")?;
    let rows = stmt.query_map([], |row| {
        Ok(ScriptureRecord {
            book: row.get(0)?,
            chapter: row.get(1)?,
            verse_start: row.get(2)?,
            text: row.get(3)?,
        })
    })?;
    rows.collect()
}

} // verus!
