//! Pagination resolver: turns optional 1-based `page` / `limit` inputs into
//! a concrete page size and a zero-based row offset.
//!
//! Defaulting lives here and nowhere else: callers that omit `page` get page
//! 1, callers that omit `limit` get a page size of 10. A supplied value of 0
//! (no 1-based page 0 exists, and a page of size 0 is useless) is treated as
//! if it were absent rather than producing a meaningless negative or empty
//! slice.

use vstd::prelude::*;

verus! {

/// Page size used when the caller does not supply one.
pub const DEFAULT_LIMIT: u32 = 10;

/// Page number used when the caller does not supply one.
pub const DEFAULT_PAGE: u32 = 1;

/// The page number actually used for a request: the given one when it is a
/// positive integer, page 1 otherwise.
pub open spec fn resolved_page(page: Option<u32>) -> u32 {
    match page {
        Some(p) => if p == 0 { DEFAULT_PAGE } else { p },
        None => DEFAULT_PAGE,
    }
}

/// The page size actually used for a request: the given one when it is a
/// positive integer, 10 otherwise.
pub open spec fn resolved_limit(limit: Option<u32>) -> u32 {
    match limit {
        Some(l) => if l == 0 { DEFAULT_LIMIT } else { l },
        None => DEFAULT_LIMIT,
    }
}

/// Number of rows skipped before the returned slice begins.
pub open spec fn spec_offset(page: u32, limit: u32) -> int {
    (page - 1) * limit
}

/// Resolved pagination for one request: a 1-based page, a positive page
/// size, and the zero-based row offset derived from them.
pub struct Pagination {
    pub page: u32,
    pub limit: u32,
    pub offset: u64,
}

impl Pagination {
    /// The offset always equals `(page - 1) * limit` and both inputs stay
    /// positive after resolution.
    pub open spec fn well_formed(self) -> bool {
        &&& self.page >= 1
        &&& self.limit >= 1
        &&& self.offset == spec_offset(self.page, self.limit)
    }
}

/// Resolves optional pagination inputs: absent (or zero) values fall back to
/// page 1 and limit 10, and `offset = (page - 1) * limit`.
pub fn resolve_pagination(page: Option<u32>, limit: Option<u32>) -> (r: Pagination)
    ensures
        r.page == resolved_page(page),
        r.limit == resolved_limit(limit),
        r.offset == spec_offset(r.page, r.limit),
        r.well_formed(),
        page is None && limit is None ==> r.page == 1 && r.limit == 10,
{
    let p: u32 = match page {
        Some(p) => if p == 0 { DEFAULT_PAGE } else { p },
        None => DEFAULT_PAGE,
    };
    let l: u32 = match limit {
        Some(l) => if l == 0 { DEFAULT_LIMIT } else { l },
        None => DEFAULT_LIMIT,
    };
    proof {
        assert((p as u64 - 1) * (l as u64) < u64::MAX) by (nonlinear_arith)
            requires
                1 <= p <= u32::MAX,
                l <= u32::MAX,
        ;
    }
    let offset: u64 = (p as u64 - 1) * l as u64;
    Pagination { page: p, limit: l, offset }
}

} // verus!
