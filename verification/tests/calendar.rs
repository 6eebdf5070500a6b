use cli_logger::calendar::{shifted_instant, FormatTemplate, EARLIEST_SECONDS, LATEST_SECONDS};

#[test]
fn three_hours_east_of_new_year_2024() {
    let template = FormatTemplate::new();
    assert_eq!(template.render(3, 1_704_067_200), "2024-01-01 03:00:00");
}

#[test]
fn no_offset_shows_utc() {
    let template = FormatTemplate::new();
    assert_eq!(template.render(0, 0), "1970-01-01 00:00:00");
    assert_eq!(template.render(0, 1_704_067_200), "2024-01-01 00:00:00");
    assert_eq!(template.render(0, 1_709_210_096), "2024-02-29 12:34:56");
}

#[test]
fn negative_offset_moves_back_over_midnight() {
    let template = FormatTemplate::new();
    assert_eq!(template.render(-5, 1_704_067_200), "2023-12-31 19:00:00");
    assert_eq!(template.render(-1, 0), "1969-12-31 23:00:00");
}

#[test]
fn offset_of_a_day_or_more() {
    let template = FormatTemplate::new();
    assert_eq!(template.render(24, 1_704_067_200), "2024-01-02 00:00:00");
    assert_eq!(template.render(-48, 1_709_251_200), "2024-02-28 00:00:00");
}

#[test]
fn an_hour_of_offset_is_an_hour_of_time() {
    let template = FormatTemplate::new();
    let now = 1_718_000_000;
    assert_eq!(template.render(5, now), template.render(0, now + 5 * 3600));
    assert_eq!(template.render(6, now), template.render(5, now + 3600));
    assert_eq!(template.render(-7, now), template.render(0, now - 7 * 3600));
}

#[test]
fn ends_of_the_four_digit_years() {
    let template = FormatTemplate::new();
    assert_eq!(template.render(0, EARLIEST_SECONDS), "0000-01-01 00:00:00");
    assert_eq!(template.render(0, LATEST_SECONDS), "9999-12-31 23:59:59");
    assert_eq!(template.render(0, -62_167_219_200), "0000-01-01 00:00:00");
    assert_eq!(template.render(0, 253_402_300_799), "9999-12-31 23:59:59");
}

#[test]
fn instants_beyond_the_ends_are_held_at_the_ends() {
    let template = FormatTemplate::new();
    assert_eq!(template.render(0, LATEST_SECONDS + 1), "9999-12-31 23:59:59");
    assert_eq!(template.render(1, LATEST_SECONDS), "9999-12-31 23:59:59");
    assert_eq!(template.render(0, i64::MAX), "9999-12-31 23:59:59");
    assert_eq!(template.render(i64::MAX, i64::MAX), "9999-12-31 23:59:59");
    assert_eq!(template.render(i64::MAX, 0), "9999-12-31 23:59:59");
    assert_eq!(template.render(0, EARLIEST_SECONDS - 1), "0000-01-01 00:00:00");
    assert_eq!(template.render(-1, EARLIEST_SECONDS), "0000-01-01 00:00:00");
    assert_eq!(template.render(i64::MIN, i64::MIN), "0000-01-01 00:00:00");
    assert_eq!(template.render(i64::MIN, 1_704_067_200), "0000-01-01 00:00:00");
}

#[test]
fn shifted_instant_adds_3600_seconds_an_hour() {
    assert_eq!(shifted_instant(3, 1_704_067_200), 1_704_078_000);
    assert_eq!(shifted_instant(-3, 1_704_067_200), 1_704_056_400);
    assert_eq!(shifted_instant(0, 42), 42);
    assert_eq!(shifted_instant(1, -3600), 0);
}

#[test]
fn shifted_instant_stays_within_the_range() {
    assert_eq!(shifted_instant(i64::MAX, i64::MAX), LATEST_SECONDS);
    assert_eq!(shifted_instant(i64::MIN, i64::MIN), EARLIEST_SECONDS);
    assert_eq!(shifted_instant(i64::MAX, i64::MIN), LATEST_SECONDS);
    assert_eq!(shifted_instant(0, LATEST_SECONDS), LATEST_SECONDS);
    assert_eq!(shifted_instant(0, LATEST_SECONDS + 1), LATEST_SECONDS);
    assert_eq!(shifted_instant(0, EARLIEST_SECONDS), EARLIEST_SECONDS);
    assert_eq!(shifted_instant(0, EARLIEST_SECONDS - 1), EARLIEST_SECONDS);
}

#[test]
fn timestamps_have_nineteen_characters() {
    let template = FormatTemplate::new();
    let samples: Vec<i64> = vec![EARLIEST_SECONDS, -1, 0, 1, 951_782_400, 1_704_067_200, LATEST_SECONDS];
    for secs in samples {
        let text = template.render(0, secs);
        assert_eq!(text.len(), 19, "{}", text);
        let bytes = text.as_bytes();
        for (i, b) in bytes.iter().enumerate() {
            match i {
                4 | 7 => assert_eq!(*b, b'-'),
                10 => assert_eq!(*b, b' '),
                13 | 16 => assert_eq!(*b, b':'),
                _ => assert!(b.is_ascii_digit()),
            }
        }
    }
}
