//! Where the messages of the tool go.

use vstd::prelude::*;

verus! {

/// How much a message matters, from the gravest to the least.
#[derive(Clone, Copy, Debug, PartialEq, Eq, Structural)]
pub enum Level {
    Error,
    Warn,
    Info,
    Debug,
    Trace,
}

/// The two streams of a terminal.
#[derive(Clone, Copy, Debug, PartialEq, Eq, Structural)]
pub enum Stream {
    Stdout,
    Stderr,
}

/// The colours in which a message is set.
#[derive(Clone, Copy, Debug, PartialEq, Eq, Structural)]
pub enum Color {
    Red,
}

/// How a message is printed.
#[derive(Clone, Copy, Debug, PartialEq, Eq, Structural)]
pub struct Print {
    /// The stream it goes to.
    pub stream: Stream,
    /// The colour it is set in, if any.
    pub color: Option<Color>,
}

/// The place of a level among the levels: the graver, the lower.
pub open spec fn severity(level: Level) -> int {
    match level {
        Level::Error => 1,
        Level::Warn => 2,
        Level::Info => 3,
        Level::Debug => 4,
        Level::Trace => 5,
    }
}

/// Whether messages of `level` are shown: those that matter as much as plain
/// information, or more.
pub open spec fn shown(level: Level) -> bool {
    severity(level) <= severity(Level::Info)
}

/// How a message of `level` is printed, if it is: a warning in red on the
/// error stream, anything else plainly on the output stream.
pub open spec fn printed(level: Level) -> Option<Print> {
    if !shown(level) {
        None
    } else if level == Level::Warn {
        Some(Print { stream: Stream::Stderr, color: Some(Color::Red) })
    } else {
        Some(Print { stream: Stream::Stdout, color: None })
    }
}

/// The logger of the tool. It decides; the printing is done for it.
pub struct Logger;

impl Logger {
    /// Whether a message of `level` is shown.
    pub fn enabled(&self, level: Level) -> (r: bool)
        ensures
            r == shown(level),
    {
        match level {
            Level::Error | Level::Warn | Level::Info => true,
            Level::Debug | Level::Trace => false,
        }
    }

    /// How a message of `level` is to be printed, or `None` where it is not
    /// shown.
    pub fn log(&self, level: Level) -> (r: Option<Print>)
        ensures
            r == printed(level),
    {
        if !self.enabled(level) {
            return None;
        }
        if level == Level::Warn {
            return Some(Print { stream: Stream::Stderr, color: Some(Color::Red) });
        }
        Some(Print { stream: Stream::Stdout, color: None })
    }
}

} // verus!
