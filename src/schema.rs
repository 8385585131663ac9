//! Request parameters of the lookup and search endpoints.
use vstd::prelude::*;

verus! {

/// Page used when a request names none (pages count from 1).
pub const DEFAULT_PAGE: usize = 1;

/// Number of rows per page when a request names none.
pub const DEFAULT_LIMIT: usize = 10;

/// Parameters of the lookup endpoint. At least one of `uid`, `upper_date`
/// and `lower_date` must be present for a lookup to run.
pub struct InfoQuery {
    pub uid: Option<String>,
    /// Latest birthday accepted (inclusive), as a date string.
    pub upper_date: Option<String>,
    /// Earliest birthday accepted (inclusive), as a date string.
    pub lower_date: Option<String>,
    pub page: Option<usize>,
    pub limit: Option<usize>,
}

/// Parameters of the search endpoint.
pub struct SearchQuery {
    pub name: String,
}

/// The paging part of a lookup request.
#[derive(Clone, Copy, Debug)]
pub struct FilterOptions {
    pub page: Option<usize>,
    pub limit: Option<usize>,
}

/// Row window of a lookup, as bound into the statement.
#[derive(Clone, Copy, Debug, PartialEq, Eq, Structural)]
pub struct Pagination {
    pub limit: i64,
    pub offset: i64,
}

/// Why a lookup request is refused before it reaches the store.
#[derive(Clone, Copy, Debug, PartialEq, Eq, Structural)]
pub enum QueryError {
    /// None of the filter parameters is present.
    MissingFilter,
    /// The page number is zero.
    InvalidPage,
    /// The limit or the offset does not fit a signed 64-bit store integer.
    PaginationOutOfRange,
}

pub open spec fn page_of(o: FilterOptions) -> int {
    match o.page {
        Some(p) => p as int,
        None => DEFAULT_PAGE as int,
    }
}

pub open spec fn limit_of(o: FilterOptions) -> int {
    match o.limit {
        Some(l) => l as int,
        None => DEFAULT_LIMIT as int,
    }
}

/// Rows skipped before the given (1-based) page.
pub open spec fn offset_of(page: int, limit: int) -> int {
    (page - 1) * limit
}

/// The window that a set of paging options selects, or why it is refused.
pub open spec fn pagination_of(o: FilterOptions) -> Result<Pagination, QueryError> {
    let page = page_of(o);
    let limit = limit_of(o);
    if page == 0 {
        Err(QueryError::InvalidPage)
    } else if limit > i64::MAX || offset_of(page, limit) > i64::MAX {
        Err(QueryError::PaginationOutOfRange)
    } else {
        Ok(Pagination { limit: limit as i64, offset: offset_of(page, limit) as i64 })
    }
}

impl FilterOptions {
    /// The row window: `limit` rows after skipping `(page - 1) * limit`,
    /// with page 1 and limit 10 where absent. Page zero is refused.
    pub fn pagination(&self) -> (r: Result<Pagination, QueryError>)
        ensures
            r == pagination_of(*self),
    {
        let page = self.page.unwrap_or(DEFAULT_PAGE) as u64;
        let limit = self.limit.unwrap_or(DEFAULT_LIMIT) as u64;
        if page == 0 {
            return Err(QueryError::InvalidPage);
        }
        if limit > i64::MAX as u64 {
            return Err(QueryError::PaginationOutOfRange);
        }
        match (page - 1).checked_mul(limit) {
            Some(offset) if offset <= i64::MAX as u64 => {
                Ok(Pagination { limit: limit as i64, offset: offset as i64 })
            },
            _ => Err(QueryError::PaginationOutOfRange),
        }
    }
}

impl InfoQuery {
    /// The paging part of the request.
    pub fn filter_options(&self) -> (r: FilterOptions)
        ensures
            r.page == self.page,
            r.limit == self.limit,
    {
        FilterOptions { page: self.page, limit: self.limit }
    }
}

} // verus!
