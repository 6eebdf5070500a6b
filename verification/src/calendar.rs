//! Wall-clock timestamps: a UTC instant, shifted by a whole number of
//! hours, written as `YYYY-MM-DD HH:MM:SS`.

use crate::decimal::is_digit;
use chrono::format::Item;
use vstd::prelude::*;

verus! {

/// The first instant that four year digits can show, in seconds since the
/// Unix epoch: the start of the year 0000.
pub const EARLIEST_SECONDS: i64 = -62_167_219_200;

/// The last instant that four year digits can show, in seconds since the
/// Unix epoch: the last second of the year 9999.
pub const LATEST_SECONDS: i64 = 253_402_300_799;

/// The seconds in an hour.
pub const SECONDS_PER_HOUR: i64 = 3600;

/// One piece of a parsed layout. Nothing in it is read here: it is handed
/// back to the formatter as it came from the parser.
#[verifier::external_type_specification]
#[verifier::external_body]
pub struct ExItem<'a>(Item<'a>);

/// The layout of a timestamp, in the formatter's notation: year, month and
/// day with hyphens, a blank, then hour, minute and second with colons.
pub open spec fn calendar_layout() -> Seq<char> {
    seq![
        '%', 'Y', '-', '%', 'm', '-', '%', 'd', ' ', '%', 'H', ':', '%', 'M', ':', '%', 'S',
    ]
}

/// What the formatter's parser makes of a layout: its pieces, or nothing
/// where it refuses the layout.
pub uninterp spec fn parsed_layout(layout: Seq<char>) -> Option<Seq<Item<'static>>>;

/// What the formatter writes for the UTC instant `unix_seconds` under the
/// parsed layout `items`: the text, or nothing where it cannot show that
/// instant under them.
pub uninterp spec fn formatted_instant(items: Seq<Item<'static>>, unix_seconds: int) -> Option<
    Seq<char>,
>;

/// Whether `text` has the form `YYYY-MM-DD HH:MM:SS`: nineteen characters,
/// digits but for two hyphens, a blank and two colons in their places.
pub open spec fn is_calendar_shape(text: Seq<char>) -> bool {
    &&& text.len() == 19
    &&& text[4] == '-'
    &&& text[7] == '-'
    &&& text[10] == ' '
    &&& text[13] == ':'
    &&& text[16] == ':'
    &&& forall|i: int|
        0 <= i < 19 && i != 4 && i != 7 && i != 10 && i != 13 && i != 16 ==> is_digit(
            #[trigger] text[i],
        )
}

/// The instant that a reading of `unix_seconds` shows under an offset of
/// `offset_hours`: the reading moved by that many hours, and held at the
/// nearest end where the move leaves the years 0000 to 9999.
pub open spec fn calendar_instant(offset_hours: int, unix_seconds: int) -> int {
    let moved = unix_seconds + SECONDS_PER_HOUR * offset_hours;
    if moved < EARLIEST_SECONDS {
        EARLIEST_SECONDS as int
    } else if moved > LATEST_SECONDS {
        LATEST_SECONDS as int
    } else {
        moved
    }
}

/// The timestamp of the UTC instant `unix_seconds`, as the formatter writes
/// it under the calendar layout.
pub open spec fn calendar_text(unix_seconds: int) -> Seq<char> {
    formatted_instant(parsed_layout(calendar_layout())->0, unix_seconds)->0
}

/// `chrono::format::StrftimeItems::new(layout).parse()`, its error dropped.
/// The result is named by `parsed_layout`. Of the calendar layout the
/// contract says that it parses: each of its six specifiers stands in the
/// crate's table of specifiers, and the rest is literal text.
#[verifier::external_body]
fn parse_layout(layout: &'static str) -> (res: Option<Vec<Item<'static>>>)
    ensures
        match res {
            Some(items) => parsed_layout(layout@) == Some(items@),
            None => parsed_layout(layout@) is None,
        },
        layout@ == calendar_layout() ==> res is Some,
{
    chrono::format::StrftimeItems::new(layout).parse().ok()
}

/// `chrono::DateTime::from_timestamp(unix_seconds, 0)`, then
/// `format_with_items` and `write_to` a fresh string. The result is named
/// by `formatted_instant`. Of pieces parsed from the calendar layout and an
/// instant in the years 0000 to 9999 the contract says more: the instant is
/// in the crate's range, every piece can be written for it, and the text
/// has the form `YYYY-MM-DD HH:MM:SS`, as the crate documents for `%Y`
/// (four digits in these years) and for `%m`, `%d`, `%H`, `%M`, `%S` (two
/// digits each).
#[verifier::external_body]
fn format_instant(items: &Vec<Item<'static>>, unix_seconds: i64) -> (res: Option<String>)
    ensures
        match res {
            Some(text) => formatted_instant(items@, unix_seconds as int) == Some(text@),
            None => formatted_instant(items@, unix_seconds as int) is None,
        },
        parsed_layout(calendar_layout()) == Some(items@) && EARLIEST_SECONDS <= unix_seconds
            <= LATEST_SECONDS ==> res is Some && is_calendar_shape(res->0@),
{
    let instant = chrono::DateTime::from_timestamp(unix_seconds, 0)?;
    let mut text = String::new();
    instant.format_with_items(items.iter()).write_to(&mut text).ok()?;
    Some(text)
}

/// The calendar layout, parsed. It is built once and then only read, so
/// any number of threads may format with it at a time.
pub struct FormatTemplate {
    items: Vec<Item<'static>>,
}

impl View for FormatTemplate {
    type V = Seq<Item<'static>>;

    /// The pieces that the template holds.
    closed spec fn view(&self) -> Seq<Item<'static>> {
        self.items@
    }
}

impl FormatTemplate {
    #[verifier::type_invariant]
    spec fn holds_calendar_layout(&self) -> bool {
        parsed_layout(calendar_layout()) == Some(self.items@)
    }

    /// Parses the calendar layout.
    pub fn new() -> (template: FormatTemplate)
        ensures
            parsed_layout(calendar_layout()) == Some(template@),
    {
        proof {
            reveal_strlit("%Y-%m-%d %H:%M:%S");
            assert("%Y-%m-%d %H:%M:%S"@ =~= calendar_layout());
        }
        match parse_layout("%Y-%m-%d %H:%M:%S") {
            Some(items) => FormatTemplate { items },
            None => vstd::pervasive::unreached(),
        }
    }

    /// Writes the instant `unix_seconds`, moved by `offset_hours` hours, as
    /// `YYYY-MM-DD HH:MM:SS`. An instant that the move takes out of the
    /// years 0000 to 9999 is written as the nearest end of that range.
    pub fn render(&self, offset_hours: i64, unix_seconds: i64) -> (text: String)
        ensures
            text@ == calendar_text(calendar_instant(offset_hours as int, unix_seconds as int)),
            is_calendar_shape(text@),
    {
        proof {
            use_type_invariant(self);
        }
        let instant = shifted_instant(offset_hours, unix_seconds);
        match format_instant(&self.items, instant) {
            Some(text) => text,
            None => vstd::pervasive::unreached(),
        }
    }
}

/// Moves a reading by a whole number of hours and holds the result within
/// the years 0000 to 9999.
pub fn shifted_instant(offset_hours: i64, unix_seconds: i64) -> (instant: i64)
    ensures
        instant == calendar_instant(offset_hours as int, unix_seconds as int),
        EARLIEST_SECONDS <= instant <= LATEST_SECONDS,
{
    let moved: i128 = (unix_seconds as i128) + 3600 * (offset_hours as i128);
    if moved < EARLIEST_SECONDS as i128 {
        EARLIEST_SECONDS
    } else if moved > LATEST_SECONDS as i128 {
        LATEST_SECONDS
    } else {
        moved as i64
    }
}

/// An offset is a flat shift: showing a reading under an offset is showing
/// the reading moved by that many hours under no offset, wherever the moved
/// reading is one that can be taken.
pub proof fn lemma_offset_is_flat_shift(offset_hours: int, unix_seconds: int)
    ensures
        calendar_instant(offset_hours, unix_seconds) == calendar_instant(
            0,
            unix_seconds + SECONDS_PER_HOUR * offset_hours,
        ),
        calendar_instant(offset_hours + 1, unix_seconds) == calendar_instant(
            offset_hours,
            unix_seconds + SECONDS_PER_HOUR,
        ),
{
}

/// Within the years 0000 to 9999 nothing is held back: the instant shown
/// is the reading plus 3600 seconds for each hour of offset. Later readings
/// never show an earlier instant.
pub proof fn lemma_calendar_instant_exact(offset_hours: int, unix_seconds: int, later: int)
    requires
        unix_seconds <= later,
    ensures
        EARLIEST_SECONDS <= calendar_instant(offset_hours, unix_seconds) <= LATEST_SECONDS,
        EARLIEST_SECONDS <= unix_seconds + SECONDS_PER_HOUR * offset_hours <= LATEST_SECONDS
            ==> calendar_instant(offset_hours, unix_seconds) == unix_seconds + SECONDS_PER_HOUR
            * offset_hours,
        calendar_instant(offset_hours, unix_seconds) <= calendar_instant(offset_hours, later),
{
}

} // verus!
