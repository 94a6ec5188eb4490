//! The public query accessors: each obtains a handle from the connection
//! manager, reads one whole table, and returns its rows fully materialized
//! in the table's fixed order — or a single error and no rows at all.

use vstd::prelude::*;
use crate::errors::DbError;
use crate::manager::ConnectionManager;
use crate::records::HymnRecord;
use crate::records::ScriptureRecord;
use crate::records::hymns_sorted;
use crate::records::scriptures_sorted;
use crate::sorting::sort_hymns;
use crate::sorting::sort_scriptures;
use crate::sqlite::fetch_hymn_rows;
use crate::sqlite::fetch_scripture_rows;
use crate::sqlite::error_text;
use crate::sqlite::is_decode_error;

verus! {

/// Classifies a failure of the fixed read query: a row-decoding failure is
/// `DecodeFailed`, anything else is `QueryFailed`.
fn classify_query_error(e: &rusqlite::Error) -> (r: DbError)
    ensures
        r is DecodeFailed || r is QueryFailed,
{
    let text = error_text(e);
    if is_decode_error(e) {
        DbError::DecodeFailed(text)
    } else {
        DbError::QueryFailed(text)
    }
}

/// Returns every row of the hymns table, ascending by hymn number, with
/// the failure kind still distinguished.
pub fn list_hymns(mgr: &mut ConnectionManager) -> (r: Result<Vec<HymnRecord>, DbError>)
    ensures
        final(mgr).path_view() == old(mgr).path_view(),
        final(mgr).opens() <= 1,
        old(mgr).is_open() ==> final(mgr).is_open() && final(mgr).opens() == old(mgr).opens(),
        r matches Ok(rows) ==> hymns_sorted(rows@) && final(mgr).is_open(),
        r matches Err(e) ==> (e is StorageUnavailable <==> !final(mgr).is_open()),
{
    let rows = match mgr.acquire() {
        Err(e) => {
            return Err(e);
        },
        Ok(conn) => {
            match fetch_hymn_rows(conn) {
                Err(e) => {
                    return Err(classify_query_error(&e));
                },
                Ok(rows) => rows,
            }
        },
    };
    Ok(sort_hymns(rows))
}

/// Returns every row of the scriptures table, ascending by
/// (book, chapter, verse start), with the failure kind still
/// distinguished.
pub fn list_scriptures(mgr: &mut ConnectionManager) -> (r: Result<Vec<ScriptureRecord>, DbError>)
    ensures
        final(mgr).path_view() == old(mgr).path_view(),
        final(mgr).opens() <= 1,
        old(mgr).is_open() ==> final(mgr).is_open() && final(mgr).opens() == old(mgr).opens(),
        r matches Ok(rows) ==> scriptures_sorted(rows@) && final(mgr).is_open(),
        r matches Err(e) ==> (e is StorageUnavailable <==> !final(mgr).is_open()),
{
    let rows = match mgr.acquire() {
        Err(e) => {
            return Err(e);
        },
        Ok(conn) => {
            match fetch_scripture_rows(conn) {
                Err(e) => {
                    return Err(classify_query_error(&e));
                },
                Ok(rows) => rows,
            }
        },
    };
    Ok(sort_scriptures(rows))
}

/// Returns every row of the hymns table, ascending by hymn number; on any
/// failure, a single human-readable description and no rows at all.
pub fn get_all_hymns(mgr: &mut ConnectionManager) -> (r: Result<Vec<HymnRecord>, String>)
    ensures
        final(mgr).path_view() == old(mgr).path_view(),
        final(mgr).opens() <= 1,
        old(mgr).is_open() ==> final(mgr).is_open() && final(mgr).opens() == old(mgr).opens(),
        r matches Ok(rows) ==> hymns_sorted(rows@) && final(mgr).is_open(),
{
    match list_hymns(mgr) {
        Ok(rows) => Ok(rows),
        Err(e) => Err(e.into_message()),
    }
}

/// Returns every row of the scriptures table, ascending by
/// (book, chapter, verse start); on any failure, a single human-readable
/// description and no rows at all.
pub fn get_all_scriptures(mgr: &mut ConnectionManager) -> (r: Result<Vec<ScriptureRecord>, String>)
    ensures
        final(mgr).path_view() == old(mgr).path_view(),
        final(mgr).opens() <= 1,
        old(mgr).is_open() ==> final(mgr).is_open() && final(mgr).opens() == old(mgr).opens(),
        r matches Ok(rows) ==> scriptures_sorted(rows@) && final(mgr).is_open(),
{
    match list_scriptures(mgr) {
        Ok(rows) => Ok(rows),
        Err(e) => Err(e.into_message()),
    }
}

} // verus!
