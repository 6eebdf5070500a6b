use cli_logger::error::LoggerError;
use cli_logger::line::compose;
use cli_logger::logger::{init, Logger};
use cli_logger::timestamp::{ClockReading, MonotonicInstant, Strategy, TimestampSource};

fn reading(secs: u64, nanos: u32, unix_seconds: i64) -> ClockReading {
    ClockReading { monotonic: MonotonicInstant::new(secs, nanos).unwrap(), unix_seconds }
}

fn failure(res: Result<Logger, LoggerError>) -> Option<LoggerError> {
    match res {
        Ok(_) => None,
        Err(e) => Some(e),
    }
}

#[test]
fn compose_puts_the_parts_in_their_places() {
    assert_eq!(compose("12", "myapp", "INFO", "started"), "[12] myapp: INFO: started\n");
    assert_eq!(
        compose("2024-01-01 03:00:00", "myapp", "WARN", "disk: 91% full"),
        "[2024-01-01 03:00:00] myapp: WARN: disk: 91% full\n"
    );
}

#[test]
fn compose_takes_empty_parts() {
    assert_eq!(compose("", "", "", ""), "[] : : \n");
}

#[test]
fn compose_does_not_touch_painted_parts() {
    assert_eq!(
        compose("0", "\u{1b}[36mx\u{1b}[0m", "\u{1b}[31mERROR\u{1b}[0m", "m"),
        "[0] \u{1b}[36mx\u{1b}[0m: \u{1b}[31mERROR\u{1b}[0m: m\n"
    );
}

#[test]
fn set_up_fails_without_arguments() {
    let args: Vec<Vec<u8>> = Vec::new();
    assert_eq!(
        failure(init(&args, Strategy::Monotonic, None, &reading(0, 0, 0))),
        Some(LoggerError::FullPath)
    );
}

#[test]
fn set_up_reports_the_name_before_the_offset() {
    let none: Vec<Vec<u8>> = Vec::new();
    let now = reading(0, 0, 0);
    assert_eq!(failure(init(&none, Strategy::Calendar, None, &now)), Some(LoggerError::FullPath));
    let slash = vec![b"/usr/bin/".to_vec()];
    assert_eq!(
        failure(init(&slash, Strategy::Calendar, Some("abc"), &now)),
        Some(LoggerError::FileName)
    );
    let bad = vec![b"/usr/bin/\xff".to_vec()];
    assert_eq!(failure(init(&bad, Strategy::Calendar, None, &now)), Some(LoggerError::NameStr));
}

#[test]
fn set_up_reports_a_missing_offset() {
    let args = vec![b"myapp".to_vec()];
    assert_eq!(
        failure(init(&args, Strategy::Calendar, None, &reading(0, 0, 0))),
        Some(LoggerError::TimeZoneEnv)
    );
}

#[test]
fn set_up_reports_an_offset_that_is_no_integer() {
    let args = vec![b"myapp".to_vec()];
    assert_eq!(
        failure(init(&args, Strategy::Calendar, Some("abc"), &reading(0, 0, 0))),
        Some(LoggerError::TimeZoneParse)
    );
}

#[test]
fn monotonic_set_up_needs_no_offset() {
    let args = vec![b"myapp".to_vec()];
    let logger = init(&args, Strategy::Monotonic, None, &reading(5, 0, 0)).unwrap();
    assert_eq!(logger.identity().as_str(), "myapp");
    match logger.source() {
        TimestampSource::Monotonic { start } => {
            assert_eq!(MonotonicInstant::new(5, 0).unwrap().whole_seconds_since(start), 0);
            assert_eq!(MonotonicInstant::new(6, 0).unwrap().whole_seconds_since(start), 1);
        },
        TimestampSource::Calendar { .. } => panic!("monotonic strategy was asked for"),
    }
}

#[test]
fn calendar_set_up_keeps_name_and_offset() {
    let args = vec![b"/opt/tools/report".to_vec()];
    let logger = init(&args, Strategy::Calendar, Some("-11"), &reading(0, 0, 0)).unwrap();
    assert_eq!(logger.identity().as_str(), "report");
    match logger.source() {
        TimestampSource::Calendar { offset_hours, .. } => assert_eq!(*offset_hours, -11),
        TimestampSource::Monotonic { .. } => panic!("calendar strategy was asked for"),
    }
}

#[test]
fn accepted_registration_ends_set_up_well() {
    assert_eq!(cli_logger::logger::registration_outcome(true), Ok(()));
}

#[test]
fn refused_registration_is_registration_error() {
    assert_eq!(cli_logger::logger::registration_outcome(false), Err(LoggerError::Registration));
}
