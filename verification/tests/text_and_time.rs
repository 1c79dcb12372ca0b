use catcam::text::{decimal_string, tenths_string};
use catcam::timestamp::Timestamp;
use chrono::{Datelike, Local, NaiveDate, Timelike};

#[test]
fn decimal_of_zero_is_one_digit() {
    assert_eq!(decimal_string(0), "0");
}

#[test]
fn decimal_of_single_digits() {
    assert_eq!(decimal_string(7), "7");
    assert_eq!(decimal_string(9), "9");
}

#[test]
fn decimal_has_no_padding() {
    assert_eq!(decimal_string(10), "10");
    assert_eq!(decimal_string(900), "900");
    assert_eq!(decimal_string(1600), "1600");
    assert_eq!(decimal_string(2000000), "2000000");
}

#[test]
fn decimal_of_largest_value() {
    assert_eq!(decimal_string(u32::MAX), "4294967295");
}

#[test]
fn decimal_agrees_with_std() {
    let mut n: u32 = 1;
    for _ in 0..31 {
        assert_eq!(decimal_string(n), n.to_string());
        assert_eq!(decimal_string(n - 1), (n - 1).to_string());
        n *= 2;
    }
}

#[test]
fn tenths_below_one() {
    assert_eq!(tenths_string(5), "0.5");
    assert_eq!(tenths_string(2), "0.2");
    assert_eq!(tenths_string(0), "0.0");
}

#[test]
fn tenths_above_one() {
    assert_eq!(tenths_string(10), "1.0");
    assert_eq!(tenths_string(125), "12.5");
}

#[test]
fn tenths_negative() {
    assert_eq!(tenths_string(-5), "-0.5");
    assert_eq!(tenths_string(-12), "-1.2");
    assert_eq!(tenths_string(-100), "-10.0");
}

#[test]
fn tenths_at_the_limits() {
    assert_eq!(tenths_string(i32::MAX), "214748364.7");
    assert_eq!(tenths_string(i32::MIN), "-214748364.8");
}

#[test]
fn timestamp_keeps_its_fields() {
    let t = Timestamp::new(2024, 1, 2, 3, 4, 5).unwrap();
    assert_eq!(t.year(), 2024);
    assert_eq!(t.month(), 1);
    assert_eq!(t.day(), 2);
    assert_eq!(t.hour(), 3);
    assert_eq!(t.minute(), 4);
    assert_eq!(t.second(), 5);
}

#[test]
fn timestamp_accepts_the_corners() {
    assert!(Timestamp::new(0, 1, 1, 0, 0, 0).is_some());
    assert!(Timestamp::new(9999, 12, 31, 23, 59, 59).is_some());
}

#[test]
fn timestamp_rejects_years_outside_four_digits() {
    assert!(Timestamp::new(-1, 6, 15, 12, 0, 0).is_none());
    assert!(Timestamp::new(10000, 1, 1, 0, 0, 0).is_none());
}

#[test]
fn timestamp_rejects_fields_out_of_range() {
    assert!(Timestamp::new(2024, 0, 10, 0, 0, 0).is_none());
    assert!(Timestamp::new(2024, 13, 10, 0, 0, 0).is_none());
    assert!(Timestamp::new(2024, 5, 0, 0, 0, 0).is_none());
    assert!(Timestamp::new(2024, 5, 32, 0, 0, 0).is_none());
    assert!(Timestamp::new(2024, 5, 10, 24, 0, 0).is_none());
    assert!(Timestamp::new(2024, 5, 10, 0, 60, 0).is_none());
    assert!(Timestamp::new(2024, 5, 10, 0, 0, 60).is_none());
}

#[test]
fn timestamp_knows_the_lengths_of_months() {
    let lengths: [u32; 12] = [31, 28, 31, 30, 31, 30, 31, 31, 30, 31, 30, 31];
    for (i, days) in lengths.iter().enumerate() {
        let month = i as u32 + 1;
        assert!(Timestamp::new(2023, month, *days, 0, 0, 0).is_some());
        assert!(Timestamp::new(2023, month, *days + 1, 0, 0, 0).is_none());
    }
}

#[test]
fn timestamp_knows_leap_years() {
    assert!(Timestamp::new(2024, 2, 29, 0, 0, 0).is_some());
    assert!(Timestamp::new(2023, 2, 29, 0, 0, 0).is_none());
    assert!(Timestamp::new(1900, 2, 29, 0, 0, 0).is_none());
    assert!(Timestamp::new(2000, 2, 29, 0, 0, 0).is_some());
    assert!(Timestamp::new(0, 2, 29, 0, 0, 0).is_some());
    assert!(Timestamp::new(2024, 2, 30, 0, 0, 0).is_none());
}

#[test]
fn timestamp_accepts_what_the_calendar_accepts() {
    for year in 0..=9999 {
        for month in 0..=13u32 {
            for day in [0u32, 1, 2, 15, 27, 28, 29, 30, 31, 32] {
                let ours = Timestamp::new(year, month, day, 12, 30, 30).is_some();
                let theirs = NaiveDate::from_ymd_opt(year, month, day).is_some();
                assert_eq!(ours, theirs, "{}-{}-{}", year, month, day);
            }
        }
    }
}

#[test]
fn timestamp_accepts_what_the_clock_face_accepts() {
    let date = NaiveDate::from_ymd_opt(2024, 2, 29).unwrap();
    for hour in 0..=25u32 {
        for minute in [0u32, 1, 30, 58, 59, 60, 61] {
            for second in [0u32, 1, 30, 58, 59, 60, 61] {
                let ours = Timestamp::new(2024, 2, 29, hour, minute, second).is_some();
                let theirs = date.and_hms_opt(hour, minute, second).is_some();
                assert_eq!(ours, theirs, "{}:{}:{}", hour, minute, second);
            }
        }
    }
}

#[test]
fn timestamp_rejects_huge_fields() {
    assert!(Timestamp::new(i32::MAX, 1, 1, 0, 0, 0).is_none());
    assert!(Timestamp::new(i32::MIN, 1, 1, 0, 0, 0).is_none());
    assert!(Timestamp::new(2024, u32::MAX, 1, 0, 0, 0).is_none());
    assert!(Timestamp::new(2024, 1, u32::MAX, 0, 0, 0).is_none());
    assert!(Timestamp::new(2024, 1, 1, u32::MAX, 0, 0).is_none());
    assert!(Timestamp::new(2024, 1, 1, 0, u32::MAX, 0).is_none());
    assert!(Timestamp::new(2024, 1, 1, 0, 0, u32::MAX).is_none());
}

#[test]
fn stamp_is_fourteen_digits() {
    let t = Timestamp::new(2024, 1, 2, 3, 4, 5).unwrap();
    assert_eq!(t.stamp(), "20240102030405");
}

#[test]
fn stamp_pads_small_years() {
    let t = Timestamp::new(7, 12, 31, 23, 59, 59).unwrap();
    assert_eq!(t.stamp(), "00071231235959");
    let t = Timestamp::new(0, 1, 1, 0, 0, 0).unwrap();
    assert_eq!(t.stamp(), "00000101000000");
    let t = Timestamp::new(987, 10, 11, 12, 13, 14).unwrap();
    assert_eq!(t.stamp(), "09871011121314");
}

#[test]
fn stamp_of_the_last_second() {
    let t = Timestamp::new(9999, 12, 31, 23, 59, 59).unwrap();
    assert_eq!(t.stamp(), "99991231235959");
}

#[test]
fn stamp_of_every_year() {
    for year in 0..=9999 {
        let t = Timestamp::new(year, 3, 9, 7, 5, 1).unwrap();
        assert_eq!(t.stamp(), format!("{:04}0309070501", year));
    }
}

#[test]
fn stamp_of_every_day_of_a_leap_year() {
    let lengths: [u32; 12] = [31, 29, 31, 30, 31, 30, 31, 31, 30, 31, 30, 31];
    for (i, days) in lengths.iter().enumerate() {
        let month = i as u32 + 1;
        for day in 1..=*days {
            let t = Timestamp::new(2024, month, day, 0, 0, 0).unwrap();
            assert_eq!(t.stamp(), format!("2024{:02}{:02}000000", month, day));
        }
    }
}

#[test]
fn stamp_of_every_second_of_an_hour_and_every_hour() {
    for minute in 0..60u32 {
        for second in 0..60u32 {
            let t = Timestamp::new(2024, 1, 2, 13, minute, second).unwrap();
            assert_eq!(t.stamp(), format!("2024010213{:02}{:02}", minute, second));
        }
    }
    for hour in 0..24u32 {
        let t = Timestamp::new(2024, 1, 2, hour, 0, 0).unwrap();
        assert_eq!(t.stamp(), format!("20240102{:02}0000", hour));
    }
}

#[test]
fn stamp_is_the_same_on_every_call() {
    let t = Timestamp::new(2022, 11, 5, 17, 45, 9).unwrap();
    assert_eq!(t.stamp(), t.stamp());
    let again = Timestamp::new(2022, 11, 5, 17, 45, 9).unwrap();
    assert_eq!(t, again);
    assert_eq!(t.stamp(), again.stamp());
}

#[test]
fn stamps_differ_from_second_to_second() {
    let base = Timestamp::new(2024, 6, 30, 23, 59, 58).unwrap();
    let others = [
        Timestamp::new(2024, 6, 30, 23, 59, 59).unwrap(),
        Timestamp::new(2024, 6, 30, 23, 58, 58).unwrap(),
        Timestamp::new(2024, 6, 30, 22, 59, 58).unwrap(),
        Timestamp::new(2024, 6, 29, 23, 59, 58).unwrap(),
        Timestamp::new(2024, 5, 30, 23, 59, 58).unwrap(),
        Timestamp::new(2023, 6, 30, 23, 59, 58).unwrap(),
        Timestamp::new(2024, 1, 12, 1, 2, 3).unwrap(),
        Timestamp::new(2024, 11, 2, 1, 2, 3).unwrap(),
    ];
    for (i, a) in others.iter().enumerate() {
        assert_ne!(base.stamp(), a.stamp());
        for b in others.iter().skip(i + 1) {
            assert_ne!(a.stamp(), b.stamp());
        }
    }
}

#[test]
fn now_reads_the_local_clock() {
    let before = Local::now();
    let read = Timestamp::now().expect("the clock shows a year of four digits");
    let after = Local::now();
    let stamp = read.stamp();
    let low = format!("{}", before.format("%Y%m%d%H%M%S"));
    let high = format!("{}", after.format("%Y%m%d%H%M%S"));
    assert_eq!(stamp.len(), 14);
    if before.offset() == after.offset() {
        assert!(low <= stamp && stamp <= high, "{} <= {} <= {}", low, stamp, high);
    }
    assert!(read.year() >= before.year().min(after.year()));
    assert!((1..=12).contains(&read.month()));
    assert!(read.hour() == before.hour() || read.hour() == after.hour());
}
