use ax_exchange_sdk::protocol::pagination::{
    LimitOffsetPagination, PaginationError, SortDirection, TimeRangeNs, TimeseriesPagination, DEFAULT_PAGE_SIZE,
};

#[test]
fn resolve_defaults() {
    let p = LimitOffsetPagination::default();
    assert_eq!(p.resolve(), (DEFAULT_PAGE_SIZE, 0));
}

#[test]
fn resolve_explicit_values() {
    let p = LimitOffsetPagination { limit: Some(25), offset: Some(50) };
    assert_eq!(p.resolve(), (25, 50));
}

#[test]
fn time_range_requires_end_after_start() {
    let ok = TimeRangeNs { start_timestamp_ns: Some(1), end_timestamp_ns: Some(2) };
    assert!(ok.validate().is_ok());
    let open = TimeRangeNs { start_timestamp_ns: None, end_timestamp_ns: Some(2) };
    assert!(open.validate().is_ok());
    let bad = TimeRangeNs { start_timestamp_ns: Some(5), end_timestamp_ns: Some(5) };
    let e = bad.validate().unwrap_err();
    assert_eq!(e, PaginationError::InvalidTimeRange { start_timestamp_ns: 5, end_timestamp_ns: 5 });
    assert_eq!(e.message(), "end_timestamp_ns (5) must be greater than start_timestamp_ns (5)");
    let mut q = TimeseriesPagination::default();
    q.range = bad;
    assert!(q.validate().is_err());
    assert_eq!(SortDirection::Desc.as_str(), "desc");
}
