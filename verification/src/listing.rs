//! The request for the list of tasks.

use vstd::prelude::*;

verus! {

/// How many tasks a page of the list holds if the caller names no limit.
pub const DEFAULT_PAGE_SIZE: i32 = 50;

/// The page size for a limit: the limit itself, cut down to the 32 bits in
/// which the agent takes it, or [`DEFAULT_PAGE_SIZE`] without a limit.
pub open spec fn page_size_of(limit: Option<usize>) -> i32 {
    match limit {
        Some(wanted) => wanted as i32,
        None => DEFAULT_PAGE_SIZE,
    }
}

/// The page size to ask the agent for.
pub fn page_size(limit: Option<usize>) -> (size: i32)
    ensures
        size == page_size_of(limit),
        limit matches Some(wanted) ==> (wanted <= i32::MAX ==> size == wanted),
{
    match limit {
        Some(wanted) => #[verifier::truncate]
        (wanted as i32),
        None => DEFAULT_PAGE_SIZE,
    }
}

} // verus!
