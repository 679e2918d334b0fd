use backup_rotation::dated::Dated;
use backup_rotation::file::File;
use backup_rotation::timestamp::Timestamp;
use chrono::{TimeZone, Utc};

#[test]
fn test_file_from_str1() {
    let input = [
        "pg_2024-02-17_03-00-01.tar",
        "pg_2024-02-29_03-00-01.tar",
        "pg_2024-03-12_03-00-01.tar",
        "pg_2024-03-24_03-00-01.tar",
        "pg_2024-04-05_03-00-01.tar",
        "pg_2024-04-17_03-00-01.tar",
        "pg_2024-04-29_03-00-01.tar",
        "pg_2024-05-11_03-00-01.tar",
        "pg_2024-05-23_03-00-01.tar",
        "pg_2024-02-18_03-00-01.tar",
        "pg_2024-03-01_03-00-01.tar",
        "pg_2024-03-13_03-00-01.tar",
        "pg_2024-03-25_03-00-01.tar"
    ];
    let expected = [
        Utc.with_ymd_and_hms(2024, 2, 17, 3, 0, 1).unwrap(),
        Utc.with_ymd_and_hms(2024, 2, 29, 3, 0, 1).unwrap(),
        Utc.with_ymd_and_hms(2024, 3, 12, 3, 0, 1).unwrap(),
        Utc.with_ymd_and_hms(2024, 3, 24, 3, 0, 1).unwrap(),
        Utc.with_ymd_and_hms(2024, 4, 5, 3, 0, 1).unwrap(),
        Utc.with_ymd_and_hms(2024, 4, 17, 3, 0, 1).unwrap(),
        Utc.with_ymd_and_hms(2024, 4, 29, 3, 0, 1).unwrap(),
        Utc.with_ymd_and_hms(2024, 5, 11, 3, 0, 1).unwrap(),
        Utc.with_ymd_and_hms(2024, 5, 23, 3, 0, 1).unwrap(),
        Utc.with_ymd_and_hms(2024, 2, 18, 3, 0, 1).unwrap(),
        Utc.with_ymd_and_hms(2024, 3, 1, 3, 0, 1).unwrap(),
        Utc.with_ymd_and_hms(2024, 3, 13, 3, 0, 1).unwrap(),
        Utc.with_ymd_and_hms(2024, 3, 25, 3, 0, 1).unwrap()
    ];
    let format = "pg_%Y-%m-%d_%H-%M-%S.tar".to_string();
    input.iter().zip(expected.iter()).for_each(|(i, e)| {
        let file = File::from_path(i.to_string(), &format).unwrap();
        assert_eq!(file.get_date().unix_seconds(), e.timestamp());
        assert_eq!(file.get_date().subsec_nanos(), e.timestamp_subsec_nanos());
    });
}

#[test]
fn test_file_from_str2() {
    let input = [
        "influx_2024-05-23_03-00-01",
        "influx_2024-05-24_03-00-01",
        "influx_2024-05-25_03-00-01",
        "influx_2024-05-26_03-00-01",
        "influx_2024-05-27_03-00-02",
        "influx_2024-05-28_03-00-01"
    ];
    let expected = [
        Utc.with_ymd_and_hms(2024, 5, 23, 3, 0, 1).unwrap(),
        Utc.with_ymd_and_hms(2024, 5, 24, 3, 0, 1).unwrap(),
        Utc.with_ymd_and_hms(2024, 5, 25, 3, 0, 1).unwrap(),
        Utc.with_ymd_and_hms(2024, 5, 26, 3, 0, 1).unwrap(),
        Utc.with_ymd_and_hms(2024, 5, 27, 3, 0, 2).unwrap(),
        Utc.with_ymd_and_hms(2024, 5, 28, 3, 0, 1).unwrap()
    ];
    let format = "influx_%Y-%m-%d_%H-%M-%S".to_string();
    input.iter().zip(expected.iter()).for_each(|(i, e)| {
        let file = File::from_path(i.to_string(), &format).unwrap();
        assert_eq!(file.get_date().unix_seconds(), e.timestamp());
        assert_eq!(file.get_date().subsec_nanos(), e.timestamp_subsec_nanos());
    });
}

#[test]
fn from_path_accepts_leap_second() {
    let file = File::from_path("pg_2016-12-31_23-59-60.tar".to_string(), "pg_%Y-%m-%d_%H-%M-%S.tar").unwrap();
    let last = Utc.with_ymd_and_hms(2016, 12, 31, 23, 59, 59).unwrap();
    assert_eq!(file.get_date().unix_seconds(), last.timestamp());
    assert_eq!(file.get_date().subsec_nanos(), 1_000_000_000);
    assert_eq!(file.get_date().month(), 12);
    assert_eq!(file.get_date().day(), 31);
}

#[test]
fn from_paths_parses_in_order_and_stops_at_failure() {
    let format = "pg_%Y-%m-%d_%H-%M-%S.tar";
    let names = vec!["pg_2024-02-17_03-00-01.tar".to_string(), "pg_2024-03-12_03-00-01.tar".to_string()];
    let files = File::from_paths(&names, format).unwrap();
    assert_eq!(files.len(), 2);
    assert_eq!(files[0].path, "pg_2024-02-17_03-00-01.tar");
    assert_eq!(files[1].get_date().month(), 3);
    let bad = vec!["pg_2024-02-17_03-00-01.tar".to_string(), "other".to_string()];
    assert!(File::from_paths(&bad, format).is_err());
    assert!(File::from_paths(&vec![], format).unwrap().is_empty());
}

#[test]
fn from_path_reads_month_and_day() {
    let file = File::from_path("pg_2024-02-29_03-00-01.tar".to_string(), "pg_%Y-%m-%d_%H-%M-%S.tar").unwrap();
    assert_eq!(file.path, "pg_2024-02-29_03-00-01.tar");
    assert_eq!(file.get_date().month(), 2);
    assert_eq!(file.get_date().day(), 29);
}

#[test]
fn from_path_with_offset_is_normalized_to_utc() {
    let file = File::from_path("db_2024-03-01_01-30-00+0200".to_string(), "db_%Y-%m-%d_%H-%M-%S%z").unwrap();
    let expected = Utc.with_ymd_and_hms(2024, 2, 29, 23, 30, 0).unwrap();
    assert_eq!(file.get_date().unix_seconds(), expected.timestamp());
    assert_eq!(file.get_date().month(), 2);
    assert_eq!(file.get_date().day(), 29);
}

#[test]
fn from_path_rejects_names_that_do_not_parse() {
    assert!(File::from_path("notes.txt".to_string(), "pg_%Y-%m-%d_%H-%M-%S.tar").is_err());
}

#[test]
fn timestamp_places_instant_on_calendar() {
    let t = Utc.with_ymd_and_hms(2023, 12, 31, 23, 59, 59).unwrap();
    let s = Timestamp::from_unix(t.timestamp(), 5).unwrap();
    assert_eq!(s.month(), 12);
    assert_eq!(s.day(), 31);
    assert_eq!(s.unix_seconds(), t.timestamp());
    assert_eq!(s.subsec_nanos(), 5);
    let next = Timestamp::from_unix(t.timestamp() + 1, 0).unwrap();
    assert_eq!(next.month(), 1);
    assert_eq!(next.day(), 1);
}

#[test]
fn timestamp_takes_extra_second_only_in_leap_second() {
    assert!(Timestamp::from_unix(0, 1_000_000_000).is_none());
    assert!(Timestamp::from_unix(59, 1_000_000_000).is_some());
    assert!(Timestamp::from_unix(59, 2_000_000_000).is_none());
    assert!(Timestamp::from_unix(i64::MAX, 0).is_none());
}

#[test]
fn file_identity_is_its_path() {
    let a = File::new("x".to_string(), Timestamp::from_unix(0, 0).unwrap());
    let b = File::new("x".to_string(), Timestamp::from_unix(86_400 * 40, 0).unwrap());
    let c = File::new("y".to_string(), Timestamp::from_unix(0, 0).unwrap());
    assert_eq!(a, b);
    assert_ne!(a, c);
}
