//! The record shapes returned by the query accessors, and the fixed
//! orderings that the accessors promise on their results.

use vstd::prelude::*;

verus! {

/// One row of the `hymns` table: a numeric hymn number and the hymn's title.
#[derive(Debug, PartialEq, Eq)]
pub struct HymnRecord {
    pub number: i64,
    pub title: String,
}

/// One row of the `scriptures` table: the ordering key (book, chapter,
/// verse start) and the verse text.
#[derive(Debug, PartialEq, Eq)]
pub struct ScriptureRecord {
    pub book: i64,
    pub chapter: i64,
    pub verse_start: i64,
    pub text: String,
}

/// Hymns are ordered ascending by hymn number.
pub open spec fn hymn_le(a: HymnRecord, b: HymnRecord) -> bool {
    a.number <= b.number
}

/// Scriptures are ordered ascending by (book, chapter, verse start),
/// compared lexicographically.
pub open spec fn scripture_le(a: ScriptureRecord, b: ScriptureRecord) -> bool {
    if a.book != b.book {
        a.book < b.book
    } else if a.chapter != b.chapter {
        a.chapter < b.chapter
    } else {
        a.verse_start <= b.verse_start
    }
}

/// A sequence of hymn records in ascending hymn-number order.
pub open spec fn hymns_sorted(s: Seq<HymnRecord>) -> bool {
    forall|i: int, j: int| 0 <= i < j < s.len() ==> hymn_le(#[trigger] s[i], #[trigger] s[j])
}

/// A sequence of scripture records in ascending (book, chapter, verse start)
/// order.
pub open spec fn scriptures_sorted(s: Seq<ScriptureRecord>) -> bool {
    forall|i: int, j: int| 0 <= i < j < s.len() ==> scripture_le(#[trigger] s[i], #[trigger] s[j])
}

/// Executable comparison agreeing with `hymn_le`.
pub fn hymn_le_exec(a: &HymnRecord, b: &HymnRecord) -> (r: bool)
    ensures
        r == hymn_le(*a, *b),
{
    a.number <= b.number
}

/// Executable comparison agreeing with `scripture_le`.
pub fn scripture_le_exec(a: &ScriptureRecord, b: &ScriptureRecord) -> (r: bool)
    ensures
        r == scripture_le(*a, *b),
{
    if a.book != b.book {
        a.book < b.book
    } else if a.chapter != b.chapter {
        a.chapter < b.chapter
    } else {
        a.verse_start <= b.verse_start
    }
}

} // verus!
