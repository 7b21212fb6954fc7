use chrono::NaiveDate;
use mel::clock::{time_text, LocalTime};
use mel::report::after_command;

fn at(year: i32, month: u32, day: u32, hour: u32, minute: u32, second: u32, nanosecond: u32) -> LocalTime {
    LocalTime { year, month, day, hour, minute, second, nanosecond }
}

fn chrono_text(t: &LocalTime) -> String {
    NaiveDate::from_ymd_opt(t.year, t.month, t.day)
        .unwrap()
        .and_hms_nano_opt(t.hour, t.minute, t.second, t.nanosecond)
        .unwrap()
        .format("%Y-%m-%d [%H:%M:%S]")
        .to_string()
}

#[test]
fn time_text_writes_log_format() {
    assert_eq!(time_text(&at(2024, 1, 2, 3, 4, 5, 0)), "2024-01-02 [03:04:05]");
    assert_eq!(time_text(&at(1999, 12, 31, 23, 59, 59, 999_999_999)), "1999-12-31 [23:59:59]");
}

#[test]
fn time_text_pads_and_signs_years() {
    assert_eq!(time_text(&at(7, 3, 4, 0, 0, 0, 0)), "0007-03-04 [00:00:00]");
    assert_eq!(time_text(&at(999, 3, 4, 0, 0, 0, 0)), "0999-03-04 [00:00:00]");
    assert_eq!(time_text(&at(10000, 1, 1, 0, 0, 0, 0)), "+10000-01-01 [00:00:00]");
    assert_eq!(time_text(&at(-5, 1, 1, 0, 0, 0, 0)), "-0005-01-01 [00:00:00]");
}

#[test]
fn time_text_shows_leap_second_as_sixty() {
    assert_eq!(time_text(&at(2016, 12, 31, 23, 59, 59, 1_000_000_000)), "2016-12-31 [23:59:60]");
}

#[test]
fn time_text_agrees_with_chrono() {
    let cases = [
        at(2024, 1, 2, 3, 4, 5, 0),
        at(0, 1, 1, 0, 0, 0, 0),
        at(42, 6, 30, 12, 0, 9, 5),
        at(9999, 12, 31, 23, 59, 59, 0),
        at(10000, 2, 29, 1, 1, 1, 0),
        at(262142, 12, 31, 0, 0, 0, 0),
        at(-1, 1, 1, 0, 0, 0, 0),
        at(-262143, 1, 1, 0, 0, 0, 0),
        at(2016, 12, 31, 23, 59, 59, 1_500_000_000),
    ];
    for t in cases.iter() {
        assert_eq!(time_text(t), chrono_text(t));
    }
}

#[test]
fn after_command_stamp_has_log_format() {
    let r = after_command("U", "ping", &None, "x");
    let head = "\nCommand Processed:\n????????? Time: ";
    let stamp = &r.log[head.len()..head.len() + 21];
    let b = stamp.as_bytes();
    assert_eq!(b[4], b'-');
    assert_eq!(b[7], b'-');
    assert_eq!(&stamp[10..12], " [");
    assert_eq!(b[14], b':');
    assert_eq!(b[17], b':');
    assert_eq!(b[20], b']');
    assert!(stamp.chars().filter(|c| c.is_ascii_digit()).count() == 14);
}
