//! How much the parser says while it works.

use vstd::prelude::*;

verus! {

/// Log level of the parser, from silent to most talkative.
#[derive(Debug, Clone, Copy, PartialEq, Eq, PartialOrd, Ord, Structural)]
pub enum LogLevel {
    /// No output.
    Silent,
    /// Errors only.
    Error,
    /// Warnings and errors.
    Warn,
    /// Information, warnings and errors.
    Info,
    /// Everything.
    Debug,
}

impl LogLevel {
    /// The number that stands for the level: 0 for silent up to 4 for debug.
    pub open spec fn spec_raw(&self) -> i32 {
        match self {
            LogLevel::Silent => 0,
            LogLevel::Error => 1,
            LogLevel::Warn => 2,
            LogLevel::Info => 3,
            LogLevel::Debug => 4,
        }
    }

    /// The level that `raw` stands for; a number that stands for none counts
    /// as errors only.
    pub open spec fn spec_from_raw(raw: i32) -> LogLevel {
        if raw == 0 {
            LogLevel::Silent
        } else if raw == 2 {
            LogLevel::Warn
        } else if raw == 3 {
            LogLevel::Info
        } else if raw == 4 {
            LogLevel::Debug
        } else {
            LogLevel::Error
        }
    }

    /// The number that stands for the level.
    pub fn raw(&self) -> (raw: i32)
        ensures
            raw == self.spec_raw(),
            0 <= raw <= 4,
    {
        match self {
            LogLevel::Silent => 0,
            LogLevel::Error => 1,
            LogLevel::Warn => 2,
            LogLevel::Info => 3,
            LogLevel::Debug => 4,
        }
    }

    /// The level that `raw` stands for.
    pub fn from_raw(raw: i32) -> (level: Self)
        ensures
            level == Self::spec_from_raw(raw),
    {
        match raw {
            0 => LogLevel::Silent,
            1 => LogLevel::Error,
            2 => LogLevel::Warn,
            3 => LogLevel::Info,
            4 => LogLevel::Debug,
            _ => LogLevel::Error,
        }
    }

    /// A level survives the trip through its number.
    pub proof fn lemma_raw_roundtrip(level: LogLevel)
        ensures
            Self::spec_from_raw(level.spec_raw()) == level,
    {
    }
}

} // verus!
