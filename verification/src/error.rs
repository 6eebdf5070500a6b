//! The failures that set-up can end in.

use vstd::prelude::*;
use vstd::string::*;

verus! {

/// Why the logger could not be set up.
#[derive(Clone, Copy, Debug, PartialEq, Eq, Structural)]
pub enum LoggerError {
    /// The argument vector is empty, so there is no invocation path.
    FullPath,
    /// The invocation path has no final segment.
    FileName,
    /// The final segment of the invocation path is not valid UTF-8.
    NameStr,
    /// The calendar strategy was asked for and no hour offset is configured.
    TimeZoneEnv,
    /// The configured hour offset is not a decimal integer that fits in `i64`.
    TimeZoneParse,
    /// The logging dispatch did not take the renderer, as when one is
    /// installed already.
    Registration,
}

impl LoggerError {
    /// The sentence that describes the failure.
    pub open spec fn description(self) -> Seq<char> {
        match self {
            LoggerError::FullPath => "Can't get full path of application"@,
            LoggerError::FileName => "File name can't be obtained"@,
            LoggerError::NameStr => "Name is not valid UTF-8"@,
            LoggerError::TimeZoneEnv => "Time zone env variable not set"@,
            LoggerError::TimeZoneParse => "Can't parse time zone variable"@,
            LoggerError::Registration => "Can't install the log renderer"@,
        }
    }

    /// The sentence that describes the failure.
    pub fn message(&self) -> (text: String)
        ensures
            text@ == self.description(),
    {
        match self {
            LoggerError::FullPath => String::from_str("Can't get full path of application"),
            LoggerError::FileName => String::from_str("File name can't be obtained"),
            LoggerError::NameStr => String::from_str("Name is not valid UTF-8"),
            LoggerError::TimeZoneEnv => String::from_str("Time zone env variable not set"),
            LoggerError::TimeZoneParse => String::from_str("Can't parse time zone variable"),
            LoggerError::Registration => String::from_str("Can't install the log renderer"),
        }
    }
}

} // verus!
