use octobot::clock::ClockTime;
use octobot::logfmt::{capture_record, format_record, format_record_now, level_name, Level, LogRecord};

fn clock(year: i32, mon: i32, mday: i32, hour: i32, min: i32, sec: i32, nsec: i32) -> ClockTime {
    ClockTime { sec, min, hour, mday, mon, year, nsec }
}

fn record(time: ClockTime, thread_id: usize, name: Option<&str>, level: Level, msg: &str) -> LogRecord {
    LogRecord {
        time,
        thread_id,
        thread_name: name.map(|s| s.to_string()),
        level,
        message: msg.to_string(),
    }
}

#[test]
fn format_exact_line() {
    let r = record(
        clock(117, 0, 5, 9, 8, 7, 123_456_789),
        42,
        Some("main"),
        Level::Info,
        "hello",
    );
    assert_eq!(format_record(&r), "[2017-01-05 09:08:07,123][42:main] - INFO - hello");
}

#[test]
fn formatting_twice_is_byte_identical() {
    let r = record(
        clock(124, 11, 31, 23, 59, 60, 999_999_999),
        7,
        Some("worker-3"),
        Level::Warn,
        "queue is full",
    );
    let once = format_record(&r);
    let again = format_record(&r);
    assert_eq!(once.as_bytes(), again.as_bytes());
    assert_eq!(once, "[2024-12-31 23:59:60,999][7:worker-3] - WARN - queue is full");
}

#[test]
fn milliseconds_are_truncated_not_rounded() {
    let r = record(clock(100, 5, 1, 0, 0, 0, 1_999_999), 1, None, Level::Error, "x");
    assert_eq!(format_record(&r), "[2000-06-01 00:00:00,001][1:] - ERROR - x");
}

#[test]
fn sub_millisecond_nanos_format_as_zero() {
    let r = record(clock(100, 5, 1, 0, 0, 0, 999_999), 1, None, Level::Error, "x");
    assert_eq!(format_record(&r), "[2000-06-01 00:00:00,000][1:] - ERROR - x");
}

#[test]
fn missing_thread_name_is_empty() {
    let r = record(clock(117, 3, 9, 1, 2, 3, 0), 9, None, Level::Debug, "dbg");
    assert_eq!(format_record(&r), "[2017-04-09 01:02:03,000][9:] - DEBUG - dbg");
}

#[test]
fn early_year_is_not_padded() {
    let r = record(clock(-1850, 0, 1, 0, 0, 0, 0), 1, None, Level::Trace, "t");
    assert_eq!(format_record(&r), "[50-01-01 00:00:00,000][1:] - TRACE - t");
}

#[test]
fn negative_year_keeps_its_sign() {
    let r = record(clock(-2000, 0, 1, 0, 0, 0, 0), 1, None, Level::Trace, "t");
    assert_eq!(format_record(&r), "[-100-01-01 00:00:00,000][1:] - TRACE - t");
}

#[test]
fn level_names_match_the_line_format() {
    assert_eq!(level_name(Level::Error), "ERROR");
    assert_eq!(level_name(Level::Warn), "WARN");
    assert_eq!(level_name(Level::Info), "INFO");
    assert_eq!(level_name(Level::Debug), "DEBUG");
    assert_eq!(level_name(Level::Trace), "TRACE");
}

#[test]
fn captured_record_formats_like_any_other() {
    let r = capture_record(Some("tester".to_string()), Level::Info, "captured".to_string());
    let line = format_record(&r);
    assert!(line.starts_with('['));
    assert!(line.ends_with("] - INFO - captured"));
    assert!(line.contains(":tester] - "));
}

#[test]
fn current_instant_line_has_the_layout() {
    let line = format_record_now(Some("t".to_string()), Level::Warn, "now".to_string());
    assert!(line.starts_with('['));
    assert!(line.ends_with(":t] - WARN - now"));
    // "[Y-MM-DD HH:MM:SS,mmm][tid" before the thread name
    let open = line.find("][").expect("the line separates time and thread");
    let bytes = line.as_bytes();
    assert_eq!(bytes[open - 4], b',');
    assert!(bytes[open - 3].is_ascii_digit());
    assert!(bytes[open - 2].is_ascii_digit());
    assert!(bytes[open - 1].is_ascii_digit());
}
