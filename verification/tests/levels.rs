use cli_logger::level::Level;
use cli_logger::paint::Hue;

#[test]
fn each_level_has_its_upper_case_label() {
    assert_eq!(Level::Error.plain_label(), "ERROR");
    assert_eq!(Level::Warn.plain_label(), "WARN");
    assert_eq!(Level::Info.plain_label(), "INFO");
    assert_eq!(Level::Debug.plain_label(), "DEBUG");
    assert_eq!(Level::Trace.plain_label(), "TRACE");
}

#[test]
fn each_level_has_its_colour() {
    assert_eq!(Level::Error.colour(), Hue::Red);
    assert_eq!(Level::Warn.colour(), Hue::Yellow);
    assert_eq!(Level::Info.colour(), Hue::Green);
    assert_eq!(Level::Debug.colour(), Hue::BrightBlue);
    assert_eq!(Level::Trace.colour(), Hue::Purple);
}

#[test]
fn labels_are_the_same_on_every_call() {
    let levels = [Level::Error, Level::Warn, Level::Info, Level::Debug, Level::Trace];
    for level in levels {
        assert_eq!(level.plain_label(), level.plain_label());
        assert_eq!(level.colour(), level.colour());
    }
}

#[test]
fn no_two_levels_share_a_label_or_a_colour() {
    let levels = [Level::Error, Level::Warn, Level::Info, Level::Debug, Level::Trace];
    for (i, a) in levels.iter().enumerate() {
        for (j, b) in levels.iter().enumerate() {
            if i != j {
                assert_ne!(a.plain_label(), b.plain_label());
                assert_ne!(a.colour(), b.colour());
            }
        }
    }
}

#[test]
fn levels_are_ordered_by_urgency() {
    let levels = [Level::Error, Level::Warn, Level::Info, Level::Debug, Level::Trace];
    for (i, a) in levels.iter().enumerate() {
        for (j, b) in levels.iter().enumerate() {
            assert_eq!(a.at_least(*b), i <= j, "{:?} against {:?}", a, b);
        }
    }
}
