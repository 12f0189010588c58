use std::time::Duration;

use display_more::display_unix_epoch::{
    DisplayUnixTimeStamp, DisplayUnixTimeStampExt, MAX_UNIX_SECONDS,
};

#[test]
fn test_display_unix_epoch() {
    let epoch = Duration::from_millis(0);
    let display = epoch.display_unix_timestamp();
    assert_eq!(display.to_string(), "1970-01-01T00:00:00.000000Z+0000");

    let epoch = Duration::from_millis(1723102819023);
    let display = epoch.display_unix_timestamp();
    assert_eq!(display.to_string(), "2024-08-08T07:40:19.023000Z+0000");

    let display = epoch.display_unix_timestamp_short();
    assert_eq!(display.to_string(), "2024-08-08T07:40:19.023");

    // Option<Duration>: Some
    let some = Some(Duration::from_millis(1723102819023));
    assert_eq!(
        some.display_unix_timestamp().to_string(),
        "2024-08-08T07:40:19.023000Z+0000"
    );
    assert_eq!(
        some.display_unix_timestamp_short().to_string(),
        "2024-08-08T07:40:19.023"
    );

    // Option<Duration>: None
    let none: Option<Duration> = None;
    assert_eq!(none.display_unix_timestamp().to_string(), "None");
    assert_eq!(none.display_unix_timestamp_short().to_string(), "None");
}

#[test]
fn unix_epoch_each_choice_of_options() {
    let time = Duration::new(1723102819, 23_456_789);
    let shown = |millis: bool, zone: bool| {
        DisplayUnixTimeStamp::new(Some(time)).in_millis(millis).with_timezone(zone).to_string()
    };
    assert_eq!(shown(false, true), "2024-08-08T07:40:19.023456Z+0000");
    assert_eq!(shown(false, false), "2024-08-08T07:40:19.023456");
    assert_eq!(shown(true, true), "2024-08-08T07:40:19.023Z+0000");
    assert_eq!(shown(true, false), "2024-08-08T07:40:19.023");
}

#[test]
fn unix_epoch_options_in_either_order() {
    let time = Some(Duration::from_secs(86_400));
    let one = DisplayUnixTimeStamp::new(time).in_millis(true).with_timezone(false);
    let other = DisplayUnixTimeStamp::new(time).with_timezone(false).in_millis(true);
    assert_eq!(one.to_string(), "1970-01-02T00:00:00.000");
    assert_eq!(other.to_string(), "1970-01-02T00:00:00.000");
}

#[test]
fn unix_epoch_a_later_choice_replaces_an_earlier_one() {
    let time = Some(Duration::from_secs(59));
    let shown = DisplayUnixTimeStamp::new(time).in_millis(true).in_millis(false);
    assert_eq!(shown.to_string(), "1970-01-01T00:00:59.000000Z+0000");
    let shown = DisplayUnixTimeStamp::new(time).with_timezone(false).with_timezone(true);
    assert_eq!(shown.to_string(), "1970-01-01T00:00:59.000000Z+0000");
}

#[test]
fn unix_epoch_fraction_is_cut_not_rounded() {
    let time = Duration::new(0, 999_999_999);
    assert_eq!(time.display_unix_timestamp().to_string(), "1970-01-01T00:00:00.999999Z+0000");
    assert_eq!(time.display_unix_timestamp_short().to_string(), "1970-01-01T00:00:00.999");
}

#[test]
fn unix_epoch_leap_day_and_year_ends() {
    let leap_day = Duration::from_secs(951_782_400);
    assert_eq!(leap_day.display_unix_timestamp_short().to_string(), "2000-02-29T00:00:00.000");
    let last_second = Duration::from_secs(946_684_799);
    assert_eq!(last_second.display_unix_timestamp_short().to_string(), "1999-12-31T23:59:59.000");
    let five_digits = Duration::from_secs(253_402_300_800);
    assert_eq!(five_digits.display_unix_timestamp_short().to_string(), "+10000-01-01T00:00:00.000");
}

#[test]
fn unix_epoch_try_to_string_within_the_calendar() {
    let time = Duration::from_millis(1723102819023);
    assert_eq!(
        time.display_unix_timestamp().try_to_string(),
        Some(String::from("2024-08-08T07:40:19.023000Z+0000"))
    );
    let none: Option<Duration> = None;
    assert_eq!(none.display_unix_timestamp().try_to_string(), Some(String::from("None")));
}

#[test]
fn unix_epoch_last_second_of_the_calendar() {
    assert_eq!(MAX_UNIX_SECONDS, 8_210_266_876_799);
    let last = Duration::new(MAX_UNIX_SECONDS, 999_999_999);
    assert_eq!(
        last.display_unix_timestamp().try_to_string(),
        Some(String::from("+262142-12-31T23:59:59.999999Z+0000"))
    );
    assert_eq!(
        last.display_unix_timestamp_short().to_string(),
        "+262142-12-31T23:59:59.999"
    );
}

#[test]
fn unix_epoch_beyond_the_calendar() {
    let first_beyond = Duration::from_secs(MAX_UNIX_SECONDS + 1);
    assert_eq!(first_beyond.display_unix_timestamp().try_to_string(), None);
    assert_eq!(first_beyond.display_unix_timestamp_short().try_to_string(), None);
    let far = Some(Duration::from_secs(u64::MAX));
    assert_eq!(far.display_unix_timestamp().try_to_string(), None);
    let largest = Duration::MAX;
    assert_eq!(largest.display_unix_timestamp().try_to_string(), None);
}
