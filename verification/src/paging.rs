//! Page windows of the list routes.

use vstd::prelude::*;

verus! {

/// Page number (1-based), page size, and the number of rows skipped.
#[derive(PartialEq, Eq, Structural, Debug, Clone, Copy)]
pub struct PageWindow {
    pub page: u32,
    pub per_page: u32,
    pub offset: u32,
}

pub open spec fn page_of(page: Option<u32>) -> u32 {
    match page {
        Some(p) => if p >= 1 { p } else { 1 },
        None => 1,
    }
}

pub open spec fn per_page_of(per_page: Option<u32>, default: u32, cap: u32) -> u32 {
    let n = match per_page {
        Some(n) => n,
        None => default,
    };
    if n <= cap {
        n
    } else {
        cap
    }
}

/// Whether the offset of the window fits in 32 bits.
pub open spec fn window_fits(page: Option<u32>, per_page: Option<u32>, default: u32, cap: u32) -> bool {
    (page_of(page) - 1) * per_page_of(per_page, default, cap) <= u32::MAX
}

/// The window a list query asks for: page at least 1 (default 1), page
/// size the given default when absent and never above `cap`, and the offset
/// `(page - 1) * per_page`.
pub fn page_window(page: Option<u32>, per_page: Option<u32>, default: u32, cap: u32) -> (w:
    PageWindow)
    requires
        window_fits(page, per_page, default, cap),
    ensures
        w.page == page_of(page),
        w.per_page == per_page_of(per_page, default, cap),
        w.offset == (w.page - 1) * w.per_page,
{
    let p: u32 = match page {
        Some(p) => if p >= 1 { p } else { 1 },
        None => 1,
    };
    let n: u32 = match per_page {
        Some(n) => n,
        None => default,
    };
    let n: u32 = if n <= cap { n } else { cap };
    PageWindow { page: p, per_page: n, offset: (p - 1) * n }
}

} // verus!
