//! Paging through the clipboard history: where a page ends and whether more
//! entries follow it.

use vstd::prelude::*;

verus! {

/// Where a fetched page of clipboard entries leaves the reader.
#[derive(Debug, Clone, Copy, PartialEq, Eq)]
pub struct PageInfo {
    /// How many entries have been read once this page is read.
    pub current_position: u64,
    /// Whether entries remain after this page.
    pub has_more: bool,
}

/// The position a page starts at: the cursor, or the beginning.
pub open spec fn page_start(cursor: Option<u64>) -> int {
    match cursor {
        Some(c) => c as int,
        None => 0,
    }
}

/// Computes where a page of `fetched` entries, read from `cursor` (the
/// beginning when absent), ends among `total` entries, and whether more
/// entries follow it.
pub fn page_info(cursor: Option<u64>, fetched: usize, total: u64) -> (info: PageInfo)
    requires
        page_start(cursor) + fetched <= u64::MAX,
    ensures
        info.current_position == page_start(cursor) + fetched,
        info.has_more == (page_start(cursor) + fetched < total),
{
    let start = match cursor {
        Some(c) => c,
        None => 0,
    };
    let current_position = start + fetched as u64;
    PageInfo { current_position, has_more: current_position < total }
}

} // verus!
