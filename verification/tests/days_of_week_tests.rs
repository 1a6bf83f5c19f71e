use ax_exchange_sdk::DaysOfWeek;

#[test]
fn test_days_of_week_validation_invalid() {
    let result = DaysOfWeek::new(vec![0]);
    assert!(result.unwrap_err().message().contains("invalid day of week: 0"));

    let result = DaysOfWeek::new(vec![8]);
    assert!(result.unwrap_err().message().contains("invalid day of week: 8"));

    let result = DaysOfWeek::new(vec![1, 2, 3, 8]);
    assert!(result.is_err());
}

#[test]
fn days_of_week_sets() {
    assert_eq!(DaysOfWeek::weekdays().as_slice(), &[1, 2, 3, 4, 5]);
    assert_eq!(DaysOfWeek::weekends().as_slice(), &[6, 7]);
    assert_eq!(DaysOfWeek::all().as_slice(), &[1, 2, 3, 4, 5, 6, 7]);
    assert!(DaysOfWeek::weekdays().contains(3));
    assert!(!DaysOfWeek::weekdays().contains(6));
    assert_eq!(DaysOfWeek::new(vec![7, 1]).unwrap().into_vec(), vec![7, 1]);
    assert_eq!(
        DaysOfWeek::new(vec![9]).unwrap_err().message(),
        "invalid day of week: 9 (must be 1-7, ISO 8601: 1=Monday, 7=Sunday)"
    );
}
