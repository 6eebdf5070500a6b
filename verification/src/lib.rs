//! Log-line formatting and one-time set-up for command-line programs.
//!
//! A program resolves its display name and a timestamp source once, with
//! [`init`], and gets a [`Logger`] back. The logger then renders each record
//! as one line: `[<time>] <name>: <LEVEL>: <message>`.

pub mod calendar;
pub mod decimal;
pub mod error;
pub mod identity;
pub mod level;
pub mod line;
pub mod logger;
pub mod paint;
pub mod timestamp;

pub use crate::error::LoggerError;
pub use crate::level::Level;
pub use crate::logger::{init, Logger};
pub use crate::timestamp::{ClockReading, MonotonicInstant, Strategy};
