use groundstation_cli::datetime::{
    count_colons, datetime_from_parts, normalize_time, parse_user_datetime, UtcDateTime,
};
use groundstation_cli::error::CliError;

fn at(year: i32, month: u32, day: u32, hour: u32, minute: u32, second: u32) -> UtcDateTime {
    UtcDateTime { year, month, day, hour, minute, second, nanosecond: 0 }
}

#[test]
fn hours_and_minutes_give_zero_seconds() {
    let dt = parse_user_datetime("2025-10-02", "12:00").unwrap();
    assert_eq!(dt, at(2025, 10, 2, 12, 0, 0));
    let dt = parse_user_datetime("2025-10-02", "12:15").unwrap();
    assert_eq!(dt, at(2025, 10, 2, 12, 15, 0));
}

#[test]
fn full_time_keeps_every_field() {
    let dt = parse_user_datetime("1999-12-31", "23:59:58").unwrap();
    assert_eq!(dt, at(1999, 12, 31, 23, 59, 58));
}

#[test]
fn malformed_date_is_a_parse_error() {
    let r = parse_user_datetime("2025-13-40", "12:00");
    assert!(matches!(r, Err(CliError::ParseError(_))));
    let r = parse_user_datetime("not a date", "12:00");
    assert!(matches!(r, Err(CliError::ParseError(_))));
}

#[test]
fn malformed_time_is_a_parse_error() {
    let r = parse_user_datetime("2025-10-02", "25:99");
    assert!(matches!(r, Err(CliError::ParseError(_))));
    let r = parse_user_datetime("2025-10-02", "noon");
    assert!(matches!(r, Err(CliError::ParseError(_))));
}

#[test]
fn parse_error_names_the_field() {
    match parse_user_datetime("2025-13-40", "25:99") {
        Err(CliError::ParseError(m)) => assert!(m.starts_with("invalid date: ")),
        other => panic!("unexpected {:?}", other),
    }
    match parse_user_datetime("2025-10-02", "25:99") {
        Err(CliError::ParseError(m)) => assert!(m.starts_with("invalid time: ")),
        other => panic!("unexpected {:?}", other),
    }
}

#[test]
fn leap_days() {
    assert_eq!(parse_user_datetime("2024-02-29", "00:00").unwrap(), at(2024, 2, 29, 0, 0, 0));
    assert!(parse_user_datetime("2025-02-29", "00:00").is_err());
    assert!(parse_user_datetime("1900-02-29", "00:00").is_err());
    assert!(parse_user_datetime("2000-02-29", "00:00").is_ok());
}

#[test]
fn one_colon_gets_seconds_appended() {
    assert_eq!(normalize_time("12:00"), "12:00:00");
    assert_eq!(normalize_time("12:00:30"), "12:00:30");
    assert_eq!(normalize_time("1200"), "1200");
    assert_eq!(
        parse_user_datetime("2025-10-02", "12:00").unwrap(),
        parse_user_datetime("2025-10-02", "12:00:00").unwrap()
    );
    assert_eq!(parse_user_datetime("2025-10-02", "12:00:30").unwrap(), at(2025, 10, 2, 12, 0, 30));
}

#[test]
fn colons_are_counted() {
    assert_eq!(count_colons(""), 0);
    assert_eq!(count_colons("12:00"), 1);
    assert_eq!(count_colons("1:2:3:4"), 3);
    assert_eq!(count_colons("🕐:"), 1);
}

#[test]
fn parts_are_combined() {
    let r = datetime_from_parts(Ok((2025, 10, 2)), Ok((12, 15, 0, 0)));
    assert_eq!(r, Ok(at(2025, 10, 2, 12, 15, 0)));
    let r = datetime_from_parts(Err("bad".to_string()), Err("worse".to_string()));
    assert_eq!(r, Err(CliError::ParseError("invalid date: bad".to_string())));
    let r = datetime_from_parts(Ok((2025, 10, 2)), Err("worse".to_string()));
    assert_eq!(r, Err(CliError::ParseError("invalid time: worse".to_string())));
}

#[test]
fn error_messages() {
    assert_eq!(CliError::ParseError("x".to_string()).message(), "Invalid input: x");
    assert_eq!(CliError::HttpError("y".to_string()).message(), "HTTP request failed: y");
    assert_eq!(
        CliError::ConfigurationError("z".to_string()).message(),
        "Configuration error: z"
    );
}
