//! The values that the storage queries are built from.

use vstd::prelude::*;
use vstd::string::*;

verus! {

/// The number of notes that come before page `page` (pages count from 1)
/// when a page holds `per_page` notes.
pub open spec fn offset_of(page: int, per_page: int) -> int {
    (page - 1) * per_page
}

/// The number of notes to skip to reach page `page` (pages count from 1).
/// Page 0, and an offset that does not fit in a `u32`, are left out: the
/// computation overflows there.
pub fn page_offset(page: u32, per_page: u32) -> (off: u32)
    requires
        page >= 1,
        offset_of(page as int, per_page as int) <= u32::MAX,
    ensures
        off == offset_of(page as int, per_page as int),
{
    (page - 1) * per_page
}

/// The `LIKE` pattern that matches every text containing `query`.
pub open spec fn contains_pattern(query: Seq<char>) -> Seq<char> {
    "%"@ + query + "%"@
}

/// The `LIKE` pattern that matches every text containing `query`.
pub fn search_pattern(query: &str) -> (p: String)
    ensures
        p@ == contains_pattern(query@),
{
    let mut p = String::from_str("%");
    p.append(query);
    p.append("%");
    p
}

} // verus!
