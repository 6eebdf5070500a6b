use cli_logger::level::{level_label, Level};
use cli_logger::logger::init;
use cli_logger::paint::{paint, Hue};
use cli_logger::timestamp::{ClockReading, MonotonicInstant, Strategy};

fn reading(secs: u64, nanos: u32, unix_seconds: i64) -> ClockReading {
    ClockReading { monotonic: MonotonicInstant::new(secs, nanos).unwrap(), unix_seconds }
}

#[test]
fn labels_show_bare_without_colour() {
    colored::control::set_override(false);
    assert_eq!(level_label(Level::Error), "ERROR");
    assert_eq!(level_label(Level::Warn), "WARN");
    assert_eq!(level_label(Level::Info), "INFO");
    assert_eq!(level_label(Level::Debug), "DEBUG");
    assert_eq!(level_label(Level::Trace), "TRACE");
}

#[test]
fn text_is_unchanged_without_colour() {
    colored::control::set_override(false);
    assert_eq!(paint(Hue::Cyan, "myapp"), "myapp");
    assert_eq!(paint(Hue::Red, "a\u{1b}[0mb"), "a\u{1b}[0mb");
    assert_eq!(paint(Hue::Purple, ""), "");
}

#[test]
fn info_record_after_set_up() {
    colored::control::set_override(false);
    let args = vec![b"/usr/local/bin/myapp".to_vec(), b"--verbose".to_vec()];
    let logger = init(&args, Strategy::Monotonic, None, &reading(100, 0, 0)).unwrap();
    assert_eq!(logger.identity().as_str(), "myapp");
    let line = logger.render_line(&reading(100, 250_000_000, 0), Level::Info, "started");
    assert_eq!(line, "[0] myapp: INFO: started\n");
}

#[test]
fn info_record_with_calendar_timestamp() {
    colored::control::set_override(false);
    let args = vec![b"myapp".to_vec()];
    let logger = init(&args, Strategy::Calendar, Some("3"), &reading(0, 0, 1_704_067_200)).unwrap();
    let line = logger.render_line(&reading(1, 0, 1_704_067_200), Level::Info, "started");
    assert_eq!(line, "[2024-01-01 03:00:00] myapp: INFO: started\n");
}

#[test]
fn every_level_in_a_line() {
    colored::control::set_override(false);
    let args = vec![b"./tool".to_vec()];
    let logger = init(&args, Strategy::Monotonic, None, &reading(0, 0, 0)).unwrap();
    let now = reading(61, 999_999_999, 0);
    assert_eq!(logger.render_line(&now, Level::Error, "e"), "[61] tool: ERROR: e\n");
    assert_eq!(logger.render_line(&now, Level::Warn, "w"), "[61] tool: WARN: w\n");
    assert_eq!(logger.render_line(&now, Level::Info, "i"), "[61] tool: INFO: i\n");
    assert_eq!(logger.render_line(&now, Level::Debug, "d"), "[61] tool: DEBUG: d\n");
    assert_eq!(logger.render_line(&now, Level::Trace, "t"), "[61] tool: TRACE: t\n");
}

#[test]
fn message_is_taken_as_it_is() {
    colored::control::set_override(false);
    let args = vec![b"tool".to_vec()];
    let logger = init(&args, Strategy::Monotonic, None, &reading(0, 0, 0)).unwrap();
    let now = reading(0, 0, 0);
    assert_eq!(logger.render_line(&now, Level::Info, ""), "[0] tool: INFO: \n");
    assert_eq!(
        logger.render_line(&now, Level::Info, "two\nlines: here"),
        "[0] tool: INFO: two\nlines: here\n"
    );
}
