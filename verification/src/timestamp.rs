//! The timestamp of a record: whole seconds since the logger was set up, or
//! the wall-clock time under a fixed hour offset.

use crate::calendar::{calendar_instant, calendar_text, is_calendar_shape, FormatTemplate};
use crate::decimal::{
    decimal_text, integer_value, lemma_decimal_text_denotes, parse_i64, parsed_i64,
    render_decimal,
};
use crate::error::LoggerError;
use vstd::prelude::*;

verus! {

/// The nanoseconds in a second.
pub const NANOS_PER_SECOND: u32 = 1_000_000_000;

/// A reading of a clock that never runs backwards, as whole seconds and
/// the nanoseconds of the second begun, counted from an origin that is the
/// same for all readings of one process.
#[derive(Clone, Copy, Debug)]
pub struct MonotonicInstant {
    secs: u64,
    nanos: u32,
}

impl View for MonotonicInstant {
    type V = nat;

    /// The reading in nanoseconds since the origin.
    closed spec fn view(&self) -> nat {
        (self.secs as nat) * (NANOS_PER_SECOND as nat) + (self.nanos as nat)
    }
}

impl MonotonicInstant {
    #[verifier::type_invariant]
    spec fn nanos_within_second(&self) -> bool {
        self.nanos < NANOS_PER_SECOND
    }

    /// A reading of `secs` seconds and `nanos` nanoseconds; none where
    /// `nanos` is a whole second or more.
    pub fn new(secs: u64, nanos: u32) -> (res: Option<MonotonicInstant>)
        ensures
            res is Some <==> nanos < NANOS_PER_SECOND,
            res matches Some(instant) ==> instant@ == secs * NANOS_PER_SECOND + nanos,
    {
        if nanos < NANOS_PER_SECOND {
            Some(MonotonicInstant { secs, nanos })
        } else {
            None
        }
    }

    /// The whole seconds from `earlier` to this reading, cut off and not
    /// rounded; zero where `earlier` is in fact the later of the two.
    pub fn whole_seconds_since(&self, earlier: &MonotonicInstant) -> (seconds: u64)
        ensures
            seconds == elapsed_seconds(earlier@, self@),
    {
        proof {
            use_type_invariant(self);
            use_type_invariant(earlier);
            lemma_elapsed_by_parts(
                earlier.secs as nat,
                earlier.nanos as nat,
                self.secs as nat,
                self.nanos as nat,
            );
        }
        if self.secs < earlier.secs {
            0
        } else if self.nanos >= earlier.nanos {
            self.secs - earlier.secs
        } else if self.secs == earlier.secs {
            0
        } else {
            self.secs - earlier.secs - 1
        }
    }
}

/// The whole seconds that lie between two readings in nanoseconds: the
/// difference cut off to seconds, and zero where `now` is before `start`.
pub open spec fn elapsed_seconds(start: nat, now: nat) -> nat {
    if now >= start {
        ((now - start) / (NANOS_PER_SECOND as int)) as nat
    } else {
        0
    }
}

/// The whole seconds between two readings, from their seconds and
/// nanoseconds apart.
proof fn lemma_elapsed_by_parts(s0: nat, n0: nat, s1: nat, n1: nat)
    requires
        n0 < NANOS_PER_SECOND,
        n1 < NANOS_PER_SECOND,
    ensures
        elapsed_seconds(
            (s0 * NANOS_PER_SECOND + n0) as nat,
            (s1 * NANOS_PER_SECOND + n1) as nat,
        ) == if s1 < s0 {
            0
        } else if n1 >= n0 {
            s1 - s0
        } else if s1 == s0 {
            0
        } else {
            s1 - s0 - 1
        },
{
    let unit = NANOS_PER_SECOND as int;
    let start = s0 * unit + n0;
    let now = s1 * unit + n1;
    if s1 < s0 {
        assert(s1 * unit + unit <= s0 * unit) by (nonlinear_arith)
            requires
                s1 + 1 <= s0,
                unit > 0,
        ;
        if now >= start {
            assert(now - start < unit);
        }
    } else if n1 >= n0 {
        let q = s1 - s0;
        assert(now - start == q * unit + (n1 - n0)) by (nonlinear_arith)
            requires
                now == s1 * unit + n1,
                start == s0 * unit + n0,
                q == s1 - s0,
        ;
        lemma_whole_units(q, n1 - n0, unit);
    } else if s1 == s0 {
    } else {
        let q = s1 - s0 - 1;
        assert(now - start == q * unit + (unit + n1 - n0)) by (nonlinear_arith)
            requires
                now == s1 * unit + n1,
                start == s0 * unit + n0,
                q == s1 - s0 - 1,
        ;
        lemma_whole_units(q, unit + n1 - n0, unit);
    }
}

/// `q` whole units and a rest short of one unit make `q` units when cut
/// off.
proof fn lemma_whole_units(q: int, rest: int, unit: int)
    requires
        0 <= q,
        0 <= rest < unit,
    ensures
        (q * unit + rest) / unit == q,
        q * unit + rest >= 0,
{
    vstd::arithmetic::div_mod::lemma_fundamental_div_mod_converse(q * unit + rest, unit, q, rest);
    assert(q * unit >= 0) by (nonlinear_arith)
        requires
            0 <= q,
            0 < unit,
    ;
}

/// One reading of the clocks, taken when a line is to be stamped.
#[derive(Clone, Copy, Debug)]
pub struct ClockReading {
    /// The clock that never runs backwards.
    pub monotonic: MonotonicInstant,
    /// The wall clock, in whole seconds since the Unix epoch, UTC.
    pub unix_seconds: i64,
}

/// The two ways to stamp a line.
#[derive(Clone, Copy, Debug, PartialEq, Eq, Structural)]
pub enum Strategy {
    /// Whole seconds since set-up.
    Monotonic,
    /// Wall-clock time under a fixed hour offset.
    Calendar,
}

/// What one timestamp source measures against: the reading taken at set-up
/// for the monotonic strategy, the hour offset for the calendar strategy.
pub enum TimeReference {
    /// The reading at set-up, in nanoseconds since the clock's origin.
    Monotonic { start: nat },
    /// The hours by which wall-clock time is moved.
    Calendar { offset_hours: int },
}

/// A timestamp source, set once at set-up and only read afterwards.
pub enum TimestampSource {
    /// Stamps with the whole seconds since `start`.
    Monotonic { start: MonotonicInstant },
    /// Stamps with UTC moved by `offset_hours`, written with `template`.
    Calendar { offset_hours: i64, template: FormatTemplate },
}

impl View for TimestampSource {
    type V = TimeReference;

    open spec fn view(&self) -> TimeReference {
        match self {
            TimestampSource::Monotonic { start } => TimeReference::Monotonic { start: start@ },
            TimestampSource::Calendar { offset_hours, template } => TimeReference::Calendar {
                offset_hours: *offset_hours as int,
            },
        }
    }
}

/// What `TimestampSource::establish` answers: the monotonic strategy takes
/// the reading as its start and asks for nothing else; the calendar
/// strategy needs an offset, `TimeZoneEnv` where none is configured and
/// `TimeZoneParse` where the text is no integer that fits in an `i64`.
pub open spec fn established(strategy: Strategy, offset_text: Option<Seq<char>>, now: nat) -> Result<
    TimeReference,
    LoggerError,
> {
    match strategy {
        Strategy::Monotonic => Ok(TimeReference::Monotonic { start: now }),
        Strategy::Calendar => match offset_text {
            None => Err(LoggerError::TimeZoneEnv),
            Some(text) => match parsed_i64(text) {
                None => Err(LoggerError::TimeZoneParse),
                Some(hours) => Ok(TimeReference::Calendar { offset_hours: hours as int }),
            },
        },
    }
}

/// The timestamp that a source with the given reference writes for a
/// reading: the elapsed whole seconds as a bare integer, or the moved
/// wall-clock instant as `YYYY-MM-DD HH:MM:SS`.
pub open spec fn rendered(reference: TimeReference, monotonic: nat, unix_seconds: int) -> Seq<
    char,
> {
    match reference {
        TimeReference::Monotonic { start } => decimal_text(elapsed_seconds(start, monotonic)),
        TimeReference::Calendar { offset_hours } => calendar_text(
            calendar_instant(offset_hours, unix_seconds),
        ),
    }
}

/// The configured offset text as a sequence of characters.
pub open spec fn text_view(text: Option<&str>) -> Option<Seq<char>> {
    match text {
        Some(t) => Some(t@),
        None => None,
    }
}

impl TimestampSource {
    /// Sets the source up for `strategy`. `now` is the reading at set-up;
    /// `offset_text` is the configured hour offset, if there is one, and is
    /// read by the calendar strategy only.
    pub fn establish(strategy: Strategy, offset_text: Option<&str>, now: &ClockReading) -> (res:
        Result<TimestampSource, LoggerError>)
        ensures
            match res {
                Ok(source) => established(strategy, text_view(offset_text), now.monotonic@)
                    == Ok::<TimeReference, LoggerError>(source@),
                Err(e) => established(strategy, text_view(offset_text), now.monotonic@) == Err::<
                    TimeReference,
                    LoggerError,
                >(e),
            },
            strategy == Strategy::Monotonic ==> res is Ok,
            strategy == Strategy::Calendar && offset_text is None ==> res is Err && res->Err_0
                == LoggerError::TimeZoneEnv,
    {
        match strategy {
            Strategy::Monotonic => Ok(TimestampSource::Monotonic { start: now.monotonic }),
            Strategy::Calendar => match offset_text {
                None => Err(LoggerError::TimeZoneEnv),
                Some(text) => match parse_i64(text) {
                    None => Err(LoggerError::TimeZoneParse),
                    Some(offset_hours) => Ok(
                        TimestampSource::Calendar { offset_hours, template: FormatTemplate::new() },
                    ),
                },
            },
        }
    }

    /// Writes the timestamp for the reading `now`.
    pub fn render(&self, now: &ClockReading) -> (text: String)
        ensures
            text@ == rendered(self@, now.monotonic@, now.unix_seconds as int),
            self@ is Calendar ==> is_calendar_shape(text@),
    {
        match self {
            TimestampSource::Monotonic { start } => render_decimal(
                now.monotonic.whole_seconds_since(start),
            ),
            TimestampSource::Calendar { offset_hours, template } => template.render(
                *offset_hours,
                now.unix_seconds,
            ),
        }
    }
}

/// The elapsed seconds never decrease from one reading to a later one, and
/// never run ahead of the readings themselves.
pub proof fn lemma_elapsed_never_decreases(start: nat, earlier: nat, later: nat)
    requires
        earlier <= later,
    ensures
        elapsed_seconds(start, earlier) <= elapsed_seconds(start, later),
{
    let unit = NANOS_PER_SECOND as int;
    if earlier >= start {
        vstd::arithmetic::div_mod::lemma_div_is_ordered(earlier - start, later - start, unit);
    }
}

/// Readings a full second or more apart, both taken at or after the start,
/// differ in their elapsed seconds.
pub proof fn lemma_elapsed_increases_each_second(start: nat, earlier: nat, later: nat)
    requires
        start <= earlier,
        earlier + NANOS_PER_SECOND <= later,
    ensures
        elapsed_seconds(start, earlier) < elapsed_seconds(start, later),
{
    let unit = NANOS_PER_SECOND as int;
    let a = earlier - start;
    let b = later - start;
    vstd::arithmetic::div_mod::lemma_div_is_ordered(a + unit, b, unit);
    vstd::arithmetic::div_mod::lemma_div_plus_one(a, unit);
}

/// The monotonic timestamps of two readings in order, read back as
/// integers: the later one is never the smaller, and it is the greater
/// where the readings are a full second or more apart and neither is
/// before the start.
pub proof fn lemma_monotonic_stamps_in_order(start: nat, earlier: nat, later: nat, unix_a: int, unix_b: int)
    requires
        earlier <= later,
    ensures
        integer_value(rendered(TimeReference::Monotonic { start }, earlier, unix_a)) == Some(
            elapsed_seconds(start, earlier) as int,
        ),
        integer_value(rendered(TimeReference::Monotonic { start }, later, unix_b)) == Some(
            elapsed_seconds(start, later) as int,
        ),
        elapsed_seconds(start, earlier) <= elapsed_seconds(start, later),
        start <= earlier && earlier + NANOS_PER_SECOND <= later ==> elapsed_seconds(start, earlier)
            < elapsed_seconds(start, later),
{
    lemma_decimal_text_denotes(elapsed_seconds(start, earlier));
    lemma_decimal_text_denotes(elapsed_seconds(start, later));
    lemma_elapsed_never_decreases(start, earlier, later);
    if start <= earlier && earlier + NANOS_PER_SECOND <= later {
        lemma_elapsed_increases_each_second(start, earlier, later);
    }
}

} // verus!
