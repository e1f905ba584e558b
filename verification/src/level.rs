//! Severity levels attached to spans and events.
use vstd::prelude::*;

verus! {

/// The severity of a span or an event, from least to most important.
#[derive(Clone, Copy, Debug, PartialEq, Eq, Hash, Structural)]
pub enum Level {
    Trace,
    Debug,
    Info,
    Warn,
    Error,
}

/// The upper-case name of a level, as it appears in rendered output.
pub open spec fn spec_level_str(l: Level) -> Seq<char> {
    match l {
        Level::Trace => "TRACE"@,
        Level::Debug => "DEBUG"@,
        Level::Info => "INFO"@,
        Level::Warn => "WARN"@,
        Level::Error => "ERROR"@,
    }
}

/// The level name left-aligned in a field of eight columns, followed by one
/// separating space: the prefix every rendered line starts with.
pub open spec fn spec_level_padded(l: Level) -> Seq<char> {
    match l {
        Level::Trace => "TRACE    "@,
        Level::Debug => "DEBUG    "@,
        Level::Info => "INFO     "@,
        Level::Warn => "WARN     "@,
        Level::Error => "ERROR    "@,
    }
}

impl Level {
    /// Returns the upper-case name of the level.
    pub fn as_str(&self) -> (r: &'static str)
        ensures
            r@ == spec_level_str(*self),
    {
        match self {
            Level::Trace => "TRACE",
            Level::Debug => "DEBUG",
            Level::Info => "INFO",
            Level::Warn => "WARN",
            Level::Error => "ERROR",
        }
    }

    /// Returns the level name padded to eight columns plus a trailing space.
    pub fn padded_str(&self) -> (r: &'static str)
        ensures
            r@ == spec_level_padded(*self),
    {
        match self {
            Level::Trace => "TRACE    ",
            Level::Debug => "DEBUG    ",
            Level::Info => "INFO     ",
            Level::Warn => "WARN     ",
            Level::Error => "ERROR    ",
        }
    }
}

} // verus!
