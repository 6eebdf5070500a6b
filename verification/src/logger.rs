//! Set-up in one step, and the handle that renders every line afterwards.

use crate::error::LoggerError;
use crate::identity::{resolve, resolved, ProcessIdentity};
use crate::level::{level_label, Level};
use crate::line::{compose, line_text};
use crate::paint::{decorated, paint, Hue};
use crate::timestamp::{
    established, rendered, text_view, ClockReading, Strategy, TimeReference, TimestampSource,
};
use vstd::prelude::*;

verus! {

/// What set-up answers: the first failure of resolving the name and then of
/// establishing the timestamp source, or else the name and the source's
/// reference.
pub open spec fn initialised(
    args: Seq<Seq<u8>>,
    strategy: Strategy,
    offset_text: Option<Seq<char>>,
    now: nat,
) -> Result<(Seq<char>, TimeReference), LoggerError> {
    match resolved(args) {
        Err(e) => Err(e),
        Ok(name) => match established(strategy, offset_text, now) {
            Err(e) => Err(e),
            Ok(reference) => Ok((name, reference)),
        },
    }
}

/// `text` as it shows in `hue` when colour is on, and as it is when colour
/// is off.
pub open spec fn shown(on: bool, hue: Hue, text: Seq<char>) -> Seq<char> {
    if on {
        decorated(hue.code(), text)
    } else {
        text
    }
}

/// The line of a record with the name in cyan and the label in the level's
/// colour, each shown with colour on or off.
pub open spec fn painted_line(
    name_on: bool,
    label_on: bool,
    timestamp: Seq<char>,
    name: Seq<char>,
    level: Level,
    message: Seq<char>,
) -> Seq<char> {
    line_text(
        timestamp,
        shown(name_on, Hue::Cyan, name),
        shown(label_on, level.hue(), level.label()),
        message,
    )
}

/// What is fixed at set-up and read for every line afterwards: the
/// program's name and the timestamp source. Nothing in it changes once it
/// is built, so it can be shared between threads as it is.
pub struct Logger {
    identity: ProcessIdentity,
    source: TimestampSource,
}

impl Logger {
    /// The program's name.
    pub closed spec fn name(&self) -> Seq<char> {
        self.identity@
    }

    /// What the timestamps are measured against.
    pub closed spec fn reference(&self) -> TimeReference {
        self.source@
    }

    /// The program's name.
    pub fn identity(&self) -> (identity: &ProcessIdentity)
        ensures
            identity@ == self.name(),
    {
        &self.identity
    }

    /// The timestamp source.
    pub fn source(&self) -> (source: &TimestampSource)
        ensures
            source@ == self.reference(),
    {
        &self.source
    }

    /// Renders one record as its line: the timestamp of the reading `now`,
    /// the program's name in cyan, the level's label in the level's colour,
    /// and the message as it is. Where colour is switched off for the
    /// process the name and the label show without it.
    pub fn render_line(&self, now: &ClockReading, level: Level, message: &str) -> (line: String)
        ensures
            exists|name_on: bool, label_on: bool|
                line@ == #[trigger] painted_line(
                    name_on,
                    label_on,
                    rendered(self.reference(), now.monotonic@, now.unix_seconds as int),
                    self.name(),
                    level,
                    message@,
                ),
    {
        let timestamp = self.source.render(now);
        let name = paint(Hue::Cyan, self.identity.as_str());
        let label = level_label(level);
        let line = compose(timestamp.as_str(), name.as_str(), label.as_str(), message);
        proof {
            let name_on = name@ != self.name();
            let label_on = label@ != level.label();
            assert(line@ == painted_line(
                name_on,
                label_on,
                rendered(self.reference(), now.monotonic@, now.unix_seconds as int),
                self.name(),
                level,
                message@,
            ));
        }
        line
    }
}

/// The last step of set-up, once the logging dispatch has answered: set-up
/// has succeeded where the dispatch accepted the renderer, and has failed
/// with `Registration` where it refused, as it does when a renderer is
/// installed already. A second set-up in one process therefore fails and
/// leaves the first renderer in place.
pub fn registration_outcome(accepted: bool) -> (res: Result<(), LoggerError>)
    ensures
        accepted ==> res is Ok,
        !accepted ==> res == Err::<(), LoggerError>(LoggerError::Registration),
{
    if accepted {
        Ok(())
    } else {
        Err(LoggerError::Registration)
    }
}

/// Sets the logger up: resolves the program's name from `args`, then
/// establishes the timestamp source for `strategy` from the reading `now`
/// and the configured offset. The first failure ends set-up and is handed
/// back; nothing is built then.
pub fn init(
    args: &Vec<Vec<u8>>,
    strategy: Strategy,
    offset_text: Option<&str>,
    now: &ClockReading,
) -> (res: Result<Logger, LoggerError>)
    ensures
        match res {
            Ok(logger) => initialised(
                args.deep_view(),
                strategy,
                text_view(offset_text),
                now.monotonic@,
            ) == Ok::<(Seq<char>, TimeReference), LoggerError>((logger.name(), logger.reference())),
            Err(e) => initialised(args.deep_view(), strategy, text_view(offset_text), now.monotonic@)
                == Err::<(Seq<char>, TimeReference), LoggerError>(e),
        },
{
    let identity = match resolve(args) {
        Ok(identity) => identity,
        Err(e) => {
            return Err(e);
        },
    };
    let source = match TimestampSource::establish(strategy, offset_text, now) {
        Ok(source) => source,
        Err(e) => {
            return Err(e);
        },
    };
    Ok(Logger { identity, source })
}

} // verus!
