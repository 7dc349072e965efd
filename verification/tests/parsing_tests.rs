use logmon::parsing::LogEntry;
use logmon::parsing::LogLevel;
use logmon::parsing::ParsingError;
use logmon::parsing::Timestamp;
use logmon::parsing::parse;

#[test]
fn parse_complete_logs() {
    let debug_entry =
        "[2023-10-01T12:00:00Z] ERROR - IP:192.168.123.45 Error 500 - This is a debug message";

    let entry = LogEntry::try_from(debug_entry.to_string()).expect("Failed to parse log entry");
    assert_eq!(entry.timestamp.to_display_string(), "2023-10-01 12:00:00 UTC");
    assert_eq!(entry.level, LogLevel::Error);
    assert_eq!(
        entry.message,
        Some("Error 500 - This is a debug message".to_string())
    );
    assert_eq!(entry.timestamp.to_display_string(), "2023-10-01 12:00:00 UTC");
}

#[test]
fn parse_log_without_message() {
    let log_entry = "[2024-01-28T15:30:45Z] DEBUG - IP:192.168.234.12 ";

    let entry = LogEntry::try_from(log_entry.to_string()).expect("Failed to parse log entry");
    assert_eq!(entry.timestamp.to_display_string(), "2024-01-28 15:30:45 UTC");
    assert_eq!(entry.level, LogLevel::Debug);
    assert_eq!(entry.message, None);
}

#[test]
fn parse_malformed_log_returns_error() {
    let log_entry = "[24=01-29T15:3:45Z] DEBG - IP:19:168.234.12 - This is a malformed log entry";

    let result = LogEntry::try_from(log_entry.to_string());
    assert!(result.is_err());
}

#[test]
fn malformed_line_kind_is_reported() {
    let r = parse("[24=01-29T15:3:45Z] DEBG - IP:19:168.234.12 - bad");
    assert_eq!(r.unwrap_err(), ParsingError::MalformedLine);
}

#[test]
fn unknown_level_kind_is_reported() {
    let r = parse("[2023-10-01T12:00:00Z] DEBG - IP:192.168.1.1 something");
    assert_eq!(r.unwrap_err(), ParsingError::UnknownLevel);
}

#[test]
fn invalid_timestamp_kind_is_reported() {
    let r = parse("[2023-13-01T12:00:00Z] INFO - IP:192.168.1.1 something");
    assert_eq!(r.unwrap_err(), ParsingError::InvalidTimestamp);
    let r = parse("[2023-02-29T12:00:00Z] INFO - IP:192.168.1.1 x");
    assert_eq!(r.unwrap_err(), ParsingError::InvalidTimestamp);
    let r = parse("[2023-10-01T24:00:00Z] INFO - IP:192.168.1.1 x");
    assert_eq!(r.unwrap_err(), ParsingError::InvalidTimestamp);
}

#[test]
fn leap_day_is_accepted_in_leap_years() {
    let entry = parse("[2024-02-29T00:00:00Z] INFO - IP:10.0.0.1 leap").unwrap();
    assert_eq!(entry.timestamp.to_display_string(), "2024-02-29 00:00:00 UTC");
}

#[test]
fn level_tokens_are_case_sensitive_and_exact() {
    assert_eq!(LogLevel::from_str("INFO"), Ok(LogLevel::Info));
    assert_eq!(LogLevel::from_str("ERROR"), Ok(LogLevel::Error));
    assert_eq!(LogLevel::from_str("DEBUG"), Ok(LogLevel::Debug));
    assert_eq!(LogLevel::from_str("info"), Err(ParsingError::UnknownLevel));
    assert_eq!(LogLevel::from_str("Debug"), Err(ParsingError::UnknownLevel));
    assert_eq!(LogLevel::from_str(""), Err(ParsingError::UnknownLevel));
}

#[test]
fn level_names_round_trip_through_from_str() {
    for level in [LogLevel::Info, LogLevel::Error, LogLevel::Debug] {
        assert_eq!(LogLevel::from_str(level.name()), Ok(level));
    }
    assert_eq!(LogLevel::Error.name(), "ERROR");
}

#[test]
fn parsing_twice_is_idempotent() {
    let line = "[2023-10-01T12:00:00Z] INFO - IP:192.168.0.7 hello there";
    let a = parse(line).unwrap();
    let b = parse(line).unwrap();
    assert_eq!(a.timestamp, b.timestamp);
    assert_eq!(a.level, b.level);
    assert_eq!(a.message, b.message);
}

#[test]
fn message_keeps_inner_content_after_leading_whitespace() {
    let entry = parse("[2023-10-01T12:00:00Z] INFO - IP:1.2.3.4   padded message ").unwrap();
    assert_eq!(entry.message, Some("padded message ".to_string()));
}

#[test]
fn whitespace_only_tail_means_no_message() {
    let entry = parse("[2023-10-01T12:00:00Z] INFO - IP:1.2.3.4 \t ").unwrap();
    assert_eq!(entry.message, None);
}

#[test]
fn display_string_zero_pads_every_field() {
    let t = Timestamp {
        year: 987,
        month: 1,
        day: 2,
        hour: 3,
        minute: 4,
        second: 5,
    };
    assert_eq!(t.to_display_string(), "0987-01-02 03:04:05 UTC");
}

#[test]
fn grammar_requires_the_full_head() {
    assert!(parse("").is_err());
    assert!(parse("ERROR - IP:1.2.3.4 no timestamp").is_err());
    assert!(parse("[2023-10-01T12:00:00Z]").is_err());
    assert!(parse("[2023-10-01T12:00:00Z]  ERROR - IP:1.2.3.4 x").is_err());
    assert!(parse("[2023-10-01T12:00:00Z] ERROR - IP:1.2.3 x").is_err());
    assert!(parse("[2023-10-01T12:00:00Z] ERROR IP:1.2.3.4 x").is_err());
}
