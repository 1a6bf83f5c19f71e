//! Paging parameters and page metadata of the list endpoints: limit/offset
//! paging, cursor paging, and time-series queries that add a time range and
//! a sort direction to cursor paging.
use vstd::prelude::*;
use crate::text::{push_decimal, decimal_text};

verus! {

/// Page size when none is asked for.
pub const DEFAULT_PAGE_SIZE: u32 = 100;

/// Limit/offset paging: both optional, defaulting to `DEFAULT_PAGE_SIZE` and 0.
#[derive(Debug, Clone, Copy, PartialEq, Eq, Structural)]
pub struct LimitOffsetPagination {
    pub limit: Option<u32>,
    pub offset: Option<u32>,
}

impl Default for LimitOffsetPagination {
    /// Neither a limit nor an offset.
    fn default() -> (r: LimitOffsetPagination)
        ensures
            r.limit is None && r.offset is None,
    {
        LimitOffsetPagination { limit: None, offset: None }
    }
}

impl LimitOffsetPagination {
    /// The limit and offset to use, with the defaults filled in.
    pub fn resolve(&self) -> (r: (u32, u32))
        ensures
            r.0 == match self.limit {
                Some(l) => l,
                None => DEFAULT_PAGE_SIZE,
            },
            r.1 == match self.offset {
                Some(o) => o,
                None => 0u32,
            },
    {
        let limit = match self.limit {
            Some(l) => l,
            None => DEFAULT_PAGE_SIZE,
        };
        let offset = match self.offset {
            Some(o) => o,
            None => 0,
        };
        (limit, offset)
    }
}

/// Page metadata of a limit/offset paged response.
#[derive(Debug, Clone, Copy, PartialEq, Eq, Structural)]
pub struct LimitOffsetPage {
    pub total_count: u64,
    pub limit: u32,
    pub offset: u32,
}

/// Cursor paging: pass the cursor of a previous page to get the next one.
#[derive(Debug, Clone)]
pub struct CursorPagination {
    pub limit: Option<u32>,
    pub cursor: Option<String>,
}

impl Default for CursorPagination {
    /// Neither a limit nor a cursor.
    fn default() -> (r: CursorPagination)
        ensures
            r.limit is None && r.cursor is None,
    {
        CursorPagination { limit: None, cursor: None }
    }
}

/// Page metadata of a cursor paged response.
#[derive(Debug, Clone)]
pub struct CursorPage {
    pub next_cursor: Option<String>,
    pub limit: Option<u32>,
    pub total_count: Option<u64>,
}

/// Direction in which results are sorted.
#[derive(Debug, Clone, Copy, PartialEq, Eq, Structural)]
pub enum SortDirection {
    Asc,
    Desc,
}

impl SortDirection {
    /// The wire name: `asc` or `desc`.
    pub fn as_str(&self) -> (r: &'static str)
        ensures
            r@ == match self {
                SortDirection::Asc => "asc"@,
                SortDirection::Desc => "desc"@,
            },
    {
        match self {
            SortDirection::Asc => "asc",
            SortDirection::Desc => "desc",
        }
    }
}

/// An optional time range, in nanoseconds since the epoch.
#[derive(Debug, Clone, Copy, PartialEq, Eq, Structural)]
pub struct TimeRangeNs {
    pub start_timestamp_ns: Option<u64>,
    pub end_timestamp_ns: Option<u64>,
}

impl Default for TimeRangeNs {
    /// No bounds.
    fn default() -> (r: TimeRangeNs)
        ensures
            r.start_timestamp_ns is None && r.end_timestamp_ns is None,
    {
        TimeRangeNs { start_timestamp_ns: None, end_timestamp_ns: None }
    }
}

/// Why paging parameters were refused.
#[derive(Debug, Clone, Copy, PartialEq, Eq, Structural)]
pub enum PaginationError {
    /// Both bounds were given and the end does not come after the start.
    InvalidTimeRange { start_timestamp_ns: u64, end_timestamp_ns: u64 },
}

impl PaginationError {
    /// The human-readable text of the error.
    pub fn message(&self) -> (r: String)
        ensures
            match self {
                PaginationError::InvalidTimeRange { start_timestamp_ns, end_timestamp_ns } => r@
                    == "end_timestamp_ns ("@ + decimal_text(*end_timestamp_ns as nat)
                    + ") must be greater than start_timestamp_ns ("@ + decimal_text(*start_timestamp_ns as nat) + ")"@,
            },
    {
        match self {
            PaginationError::InvalidTimeRange { start_timestamp_ns, end_timestamp_ns } => {
                let mut s = String::from_str("end_timestamp_ns (");
                push_decimal(&mut s, *end_timestamp_ns);
                s.append(") must be greater than start_timestamp_ns (");
                push_decimal(&mut s, *start_timestamp_ns);
                s.append(")");
                s
            },
        }
    }
}

impl TimeRangeNs {
    /// Checks the range: when both bounds are given, the end must be greater
    /// than the start.
    pub fn validate(&self) -> (r: Result<(), PaginationError>)
        ensures
            match (self.start_timestamp_ns, self.end_timestamp_ns) {
                (Some(s), Some(e)) => if e <= s {
                    r == Err::<(), PaginationError>(PaginationError::InvalidTimeRange {
                        start_timestamp_ns: s,
                        end_timestamp_ns: e,
                    })
                } else {
                    r is Ok
                },
                _ => r is Ok,
            },
    {
        match (self.start_timestamp_ns, self.end_timestamp_ns) {
            (Some(s), Some(e)) => {
                if e <= s {
                    Err(PaginationError::InvalidTimeRange { start_timestamp_ns: s, end_timestamp_ns: e })
                } else {
                    Ok(())
                }
            },
            _ => Ok(()),
        }
    }
}

/// A time-series query: a time range, a sort direction (descending when
/// unset) and cursor paging.
#[derive(Debug, Clone)]
pub struct TimeseriesPagination {
    pub range: TimeRangeNs,
    pub sort_ts: Option<SortDirection>,
    pub pagination: CursorPagination,
}

impl Default for TimeseriesPagination {
    /// No range, no direction, no paging.
    fn default() -> (r: TimeseriesPagination)
        ensures
            r.range.start_timestamp_ns is None && r.range.end_timestamp_ns is None,
            r.sort_ts is None,
            r.pagination.limit is None && r.pagination.cursor is None,
    {
        TimeseriesPagination {
            range: TimeRangeNs::default(),
            sort_ts: None,
            pagination: CursorPagination::default(),
        }
    }
}

impl TimeseriesPagination {
    /// Checks the time range.
    pub fn validate(&self) -> (r: Result<(), PaginationError>)
        ensures
            match (self.range.start_timestamp_ns, self.range.end_timestamp_ns) {
                (Some(s), Some(e)) => if e <= s {
                    r == Err::<(), PaginationError>(PaginationError::InvalidTimeRange {
                        start_timestamp_ns: s,
                        end_timestamp_ns: e,
                    })
                } else {
                    r is Ok
                },
                _ => r is Ok,
            },
    {
        self.range.validate()
    }
}

} // verus!
