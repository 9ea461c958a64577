use file_search::filetime::{filetime_parts, filetime_to_datetime, timestamp_text};

#[test]
fn unix_epoch_as_file_time() {
    assert_eq!(filetime_parts(116_444_736_000_000_000), (0, 0));
    assert_eq!(filetime_to_datetime(116_444_736_000_000_000), "1970-01-01T00:00:00+00:00");
}

#[test]
fn file_time_zero_is_the_year_1601() {
    assert_eq!(filetime_parts(0), (-11_644_473_600, 0));
    assert_eq!(filetime_to_datetime(0), "1601-01-01T00:00:00+00:00");
}

#[test]
fn whole_seconds_have_no_fraction() {
    assert_eq!(filetime_parts(132_223_104_000_000_000), (1_577_836_800, 0));
    assert_eq!(filetime_to_datetime(132_223_104_000_000_000), "2020-01-01T00:00:00+00:00");
}

#[test]
fn hundred_nanosecond_units_become_nanoseconds() {
    assert_eq!(filetime_parts(132_223_104_001_234_567), (1_577_836_800, 123_456_700));
    assert_eq!(filetime_parts(9_999_999), (-11_644_473_600, 999_999_900));
    assert_eq!(
        filetime_to_datetime(132_223_104_001_234_567),
        "2020-01-01T00:00:00.123456700+00:00"
    );
    assert_eq!(filetime_to_datetime(132_223_104_005_000_000), "2020-01-01T00:00:00.500+00:00");
}

#[test]
fn largest_file_time_is_still_written() {
    assert_eq!(filetime_parts(u64::MAX), (1_833_029_933_770, 955_161_500));
    let text = filetime_to_datetime(u64::MAX);
    assert!(text.starts_with("+60056-05-28T05:36:10.955161500"), "{}", text);
}

#[test]
fn unformatted_instant_shows_as_empty() {
    assert_eq!(timestamp_text(None), "");
    assert_eq!(timestamp_text(Some("2020-01-01T00:00:00+00:00".to_string())), "2020-01-01T00:00:00+00:00");
}
