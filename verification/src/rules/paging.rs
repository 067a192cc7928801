//! Pages of a list.

use vstd::prelude::*;

verus! {

/// The smaller of two numbers.
pub open spec fn at_most(a: int, b: int) -> int {
    if a <= b {
        a
    } else {
        b
    }
}

/// The page of `items` that skips `start` items and then takes up to
/// `limit` of them.
pub open spec fn page<T>(items: Seq<T>, start: nat, limit: nat) -> Seq<T> {
    items.subrange(
        at_most(start as int, items.len() as int),
        at_most(start + limit as int, items.len() as int),
    )
}

/// Where a page starts when the caller names no start.
pub const DEFAULT_PAGE_START: u32 = 0;

/// How many items a page holds at most when the caller names no limit.
pub const DEFAULT_PAGE_LIMIT: u32 = 5;

/// The number of items to skip.
pub open spec fn page_start(start: Option<u32>) -> nat {
    match start {
        Some(n) => n as nat,
        None => DEFAULT_PAGE_START as nat,
    }
}

/// The number of items to take at most.
pub open spec fn page_limit(limit: Option<u32>) -> nat {
    match limit {
        Some(n) => n as nat,
        None => DEFAULT_PAGE_LIMIT as nat,
    }
}

/// The records that a map holds under the keys of a list, in the list's
/// order.
pub open spec fn records_of<T>(ids: Seq<Seq<char>>, records: Map<Seq<char>, T>) -> Seq<T> {
    Seq::new(ids.len(), |i: int| records[ids[i]])
}

/// The indexes at which the page of a list of `len` items begins and ends.
pub fn page_bounds(len: usize, start: Option<u32>, limit: Option<u32>) -> (r: (usize, usize))
    ensures
        r.0 == at_most(page_start(start) as int, len as int),
        r.1 == at_most(page_start(start) + page_limit(limit) as int, len as int),
        r.0 <= r.1 <= len,
{
    let s: u64 = match start {
        Some(n) => n as u64,
        None => DEFAULT_PAGE_START as u64,
    };
    let l: u64 = match limit {
        Some(n) => n as u64,
        None => DEFAULT_PAGE_LIMIT as u64,
    };
    let n: u64 = len as u64;
    let from: u64 = if s <= n {
        s
    } else {
        n
    };
    let to: u64 = if s + l <= n {
        s + l
    } else {
        n
    };
    (from as usize, to as usize)
}

} // verus!
