//! The store of units. Units are listed a page at a time.
use vstd::prelude::*;

verus! {

/// The window of rows that a page of units spans, as the two query
/// parameters the sqlite store binds: the offset `page * page_size` and the
/// page size, each converted to `i32` the way `as` converts (keeping the
/// low 32 bits).
pub fn page_window(page: usize, page_size: usize) -> (window: (i32, i32))
    requires
        page * page_size <= usize::MAX,
    ensures
        window.0 == (page * page_size) as i32,
        window.1 == page_size as i32,
{
    let offset = page * page_size;
    (offset as i32, page_size as i32)
}

} // verus!
