use chrono::{DateTime, NaiveDate, NaiveDateTime, TimeZone, Utc};
use unique_api::timestamps::{
    midnight, parse_datetime, pick_instant, Instant, DATETIME_FORMAT, DATE_FORMAT, EPOCH_DAY,
    SECONDS_PER_DAY,
};

fn at(seconds: i64) -> Instant {
    Instant { seconds, nanos: 0 }
}

fn reference(s: &str) -> Option<DateTime<Utc>> {
    NaiveDateTime::parse_from_str(s, "%Y-%m-%d %H:%M:%S")
        .or_else(|_| {
            NaiveDate::parse_from_str(s, "%Y-%m-%d").map(|d| d.and_hms_opt(0, 0, 0).unwrap())
        })
        .ok()
        .map(|d| Utc.from_utc_datetime(&d))
}

fn rebuilt(s: &str) -> Option<DateTime<Utc>> {
    parse_datetime(s).map(|i| DateTime::<Utc>::from_timestamp(i.seconds, i.nanos).unwrap())
}

#[test]
fn formats_and_constants() {
    assert_eq!(DATETIME_FORMAT, "%Y-%m-%d %H:%M:%S");
    assert_eq!(DATE_FORMAT, "%Y-%m-%d");
    assert_eq!(EPOCH_DAY, 719_163);
    assert_eq!(SECONDS_PER_DAY, 86_400);
}

#[test]
fn midnight_counts_seconds_from_the_epoch() {
    assert_eq!(midnight(719_163), at(0));
    assert_eq!(midnight(719_164), at(86_400));
    assert_eq!(midnight(719_162), at(-86_400));
    assert_eq!(midnight(0), at(-719_163 * 86_400));
    assert_eq!(midnight(i32::MAX), at((i64::from(i32::MAX) - 719_163) * 86_400));
    assert_eq!(midnight(i32::MIN), at((i64::from(i32::MIN) - 719_163) * 86_400));
}

#[test]
fn pick_instant_prefers_the_time_of_day() {
    assert_eq!(pick_instant(Some((5, 0)), Some(719_164)), Some(at(5)));
    assert_eq!(pick_instant(Some((5, 7)), None), Some(Instant { seconds: 5, nanos: 7 }));
    assert_eq!(
        pick_instant(Some((59, 1_500_000_000)), None),
        Some(Instant { seconds: 59, nanos: 1_500_000_000 })
    );
    assert_eq!(pick_instant(None, Some(719_164)), Some(at(86_400)));
    assert_eq!(pick_instant(None, None), None);
}

#[test]
fn parse_datetime_reads_both_forms() {
    assert_eq!(parse_datetime("1970-01-01 00:00:00"), Some(at(0)));
    assert_eq!(parse_datetime("1970-01-01"), Some(at(0)));
    assert_eq!(parse_datetime("2024-01-15 10:30:00"), Some(at(1_705_314_600)));
    assert_eq!(parse_datetime("2024-01-15"), Some(at(1_705_276_800)));
    assert_eq!(parse_datetime("1969-12-31 23:59:59"), Some(at(-1)));
    assert_eq!(parse_datetime("2000-02-29"), Some(at(951_782_400)));
}

#[test]
fn parse_datetime_refuses_other_texts() {
    assert_eq!(parse_datetime(""), None);
    assert_eq!(parse_datetime("today"), None);
    assert_eq!(parse_datetime("2024-02-30"), None);
    assert_eq!(parse_datetime("2024-01-15 24:00:00"), None);
    assert_eq!(parse_datetime("2024-01-15T10:30:00"), None);
    assert_eq!(parse_datetime("2024/01/15"), None);
    assert_eq!(parse_datetime("2024-01-15 10:30:00 UTC"), None);
}

#[test]
fn parse_datetime_agrees_with_the_two_parsers() {
    let texts = [
        "2024-01-15",
        "2024-01-15 10:30:00",
        "2024-1-5",
        "2024-01-15 1:2:3",
        " 2024-01-15",
        "2024-01-15 ",
        "0001-01-01",
        "9999-12-31 23:59:59",
        "+10000-01-01",
        "-0001-01-01",
        "2023-02-29",
        "2024-01-15 10:30",
        "2024-01-15 10:30:60",
        "12",
        "",
    ];
    for t in texts {
        assert_eq!(rebuilt(t), reference(t), "text {:?}", t);
    }
}

#[test]
fn leap_second_is_kept() {
    assert_eq!(
        parse_datetime("2016-12-31 23:59:60"),
        Some(Instant { seconds: 1_483_228_799, nanos: 1_000_000_000 })
    );
    assert_eq!(parse_datetime("2016-12-31 23:59:59"), Some(at(1_483_228_799)));
    assert_eq!(rebuilt("2016-12-31 23:59:60"), reference("2016-12-31 23:59:60"));
    assert_ne!(rebuilt("2016-12-31 23:59:60"), rebuilt("2016-12-31 23:59:59"));
    assert_eq!(rebuilt("2024-01-15 10:30:60"), reference("2024-01-15 10:30:60"));
}
