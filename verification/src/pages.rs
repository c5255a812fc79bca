//! Accumulating paginated results.
//!
//! A paginated listing is collected by following the server's "next" link
//! until it is absent, appending each page's results in arrival order.
//! The fetching is I/O and lives outside the library; this is the
//! accumulation step each round performs.

use vstd::prelude::*;

verus! {

/// Append one page of results to what has been collected, keeping order.
pub fn append_page<T>(collected: &mut Vec<T>, page: Vec<T>)
    ensures
        final(collected)@ == old(collected)@ + page@,
{
    let mut page = page;
    collected.append(&mut page);
}

} // verus!
