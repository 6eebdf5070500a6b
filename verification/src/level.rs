//! The five severities and the label each one is shown with.

use crate::paint::{decorated, is_painting, lemma_reopened_plain, paint, style_open, style_reset, Hue};
use vstd::prelude::*;

verus! {

/// How urgent a record is, most urgent first.
#[derive(Clone, Copy, Debug, PartialEq, Eq, Structural)]
pub enum Level {
    Error,
    Warn,
    Info,
    Debug,
    Trace,
}

impl Level {
    /// The upper-case name a record of this severity is labelled with.
    pub open spec fn label(self) -> Seq<char> {
        match self {
            Level::Error => seq!['E', 'R', 'R', 'O', 'R'],
            Level::Warn => seq!['W', 'A', 'R', 'N'],
            Level::Info => seq!['I', 'N', 'F', 'O'],
            Level::Debug => seq!['D', 'E', 'B', 'U', 'G'],
            Level::Trace => seq!['T', 'R', 'A', 'C', 'E'],
        }
    }

    /// The colour the label is painted in.
    pub open spec fn hue(self) -> Hue {
        match self {
            Level::Error => Hue::Red,
            Level::Warn => Hue::Yellow,
            Level::Info => Hue::Green,
            Level::Debug => Hue::BrightBlue,
            Level::Trace => Hue::Purple,
        }
    }

    /// The place in the order of urgency: 5 for `Error` down to 1 for
    /// `Trace`.
    pub open spec fn urgency(self) -> int {
        match self {
            Level::Error => 5,
            Level::Warn => 4,
            Level::Info => 3,
            Level::Debug => 2,
            Level::Trace => 1,
        }
    }

    /// The label without colour.
    pub fn plain_label(self) -> (text: &'static str)
        ensures
            text@ == self.label(),
    {
        proof {
            reveal_strlit("ERROR");
            reveal_strlit("WARN");
            reveal_strlit("INFO");
            reveal_strlit("DEBUG");
            reveal_strlit("TRACE");
        }
        let text = match self {
            Level::Error => "ERROR",
            Level::Warn => "WARN",
            Level::Info => "INFO",
            Level::Debug => "DEBUG",
            Level::Trace => "TRACE",
        };
        proof {
            assert(text@ =~= self.label());
        }
        text
    }

    /// The colour of the label.
    pub fn colour(self) -> (hue: Hue)
        ensures
            hue == self.hue(),
    {
        match self {
            Level::Error => Hue::Red,
            Level::Warn => Hue::Yellow,
            Level::Info => Hue::Green,
            Level::Debug => Hue::BrightBlue,
            Level::Trace => Hue::Purple,
        }
    }

    /// Whether a record of this severity is at least as urgent as one of
    /// `other`.
    pub fn at_least(self, other: Level) -> (yes: bool)
        ensures
            yes == (self.urgency() >= other.urgency()),
    {
        match (self, other) {
            (Level::Error, _) => true,
            (Level::Warn, Level::Error) => false,
            (Level::Warn, _) => true,
            (Level::Info, Level::Error) => false,
            (Level::Info, Level::Warn) => false,
            (Level::Info, _) => true,
            (Level::Debug, Level::Debug) => true,
            (Level::Debug, Level::Trace) => true,
            (Level::Debug, _) => false,
            (Level::Trace, Level::Trace) => true,
            (Level::Trace, _) => false,
        }
    }
}

/// No two severities share a label, a colour or a place in the order.
pub proof fn lemma_levels_are_told_apart(a: Level, b: Level)
    requires
        a != b,
    ensures
        a.label() != b.label(),
        a.hue() != b.hue(),
        a.urgency() != b.urgency(),
{
    assert(a.label()[0] != b.label()[0]);
}

/// No label holds an escape character, so a label in colour is the label
/// between the colour's opening sequence and the reset.
pub proof fn lemma_label_is_plain(level: Level)
    ensures
        forall|i: int| 0 <= i < level.label().len() ==> level.label()[i] != '\u{1b}',
        decorated(level.hue().code(), level.label()) == style_open(level.hue().code())
            + level.label() + style_reset(),
{
    lemma_reopened_plain(level.label(), style_open(level.hue().code()));
}

/// A shown label tells its severity, with colour or without: no text is a
/// painting of the labels of two severities.
pub proof fn lemma_shown_label_tells_level(out: Seq<char>, a: Level, b: Level)
    requires
        is_painting(out, a.hue(), a.label()),
        is_painting(out, b.hue(), b.label()),
    ensures
        a == b,
{
    let in_a = decorated(a.hue().code(), a.label());
    let in_b = decorated(b.hue().code(), b.label());
    lemma_label_is_plain(a);
    lemma_label_is_plain(b);
    assert(in_a[0] == '\u{1b}' && in_a[2] == a.hue().code()[0] && in_a[3] == a.hue().code()[1]);
    assert(in_b[0] == '\u{1b}' && in_b[2] == b.hue().code()[0] && in_b[3] == b.hue().code()[1]);
    assert(a.label()[0] != '\u{1b}' && b.label()[0] != '\u{1b}');
    if a != b {
        lemma_levels_are_told_apart(a, b);
    }
}

/// The label of `level` as a log line shows it: the level's upper-case
/// name painted in the level's colour.
pub fn level_label(level: Level) -> (out: String)
    ensures
        is_painting(out@, level.hue(), level.label()),
{
    paint(level.colour(), level.plain_label())
}

} // verus!
