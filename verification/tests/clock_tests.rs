use todo_app::clock::{current_timestamp, format_date, try_format_date};

#[test]
fn now_is_after_2020() {
    let now = current_timestamp().unwrap();
    assert!(now > 1_577_836_800);
}

#[test]
fn epoch_is_formatted() {
    assert_eq!(format_date(0), "1970-01-01 00:00");
    assert_eq!(try_format_date(0), Some("1970-01-01 00:00".to_string()));
}

#[test]
fn known_dates_are_formatted() {
    assert_eq!(format_date(1431648000), "2015-05-15 00:00");
    assert_eq!(format_date(1431648000 + 3600 * 13 + 60 * 7 + 59), "2015-05-15 13:07");
}

#[test]
fn wrapped_timestamps_are_formatted_as_negative_seconds() {
    assert_eq!(try_format_date(u64::MAX), Some("1969-12-31 23:59".to_string()));
}

#[test]
fn unrepresentable_timestamps_give_none() {
    assert_eq!(try_format_date(9_000_000_000_000), None);
}
