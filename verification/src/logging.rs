//! Which stream a log event goes to: operational events to standard output,
//! exceptional ones to standard error.
use vstd::prelude::*;

verus! {

/// What is logged where the environment does not say.
pub const DEFAULT_FILTER: &'static str = "info,russhd_pty=debug";

/// The severity of a log event.
#[derive(Clone, Copy, Debug, PartialEq, Eq, Structural)]
pub enum Level {
    /// Something failed.
    Error,
    /// Something is unexpected.
    Warn,
    /// Normal operation.
    Info,
    /// Details.
    Debug,
    /// All details.
    Trace,
}

/// How much detail a level stands for: the more severe, the less.
pub open spec fn verbosity(level: Level) -> int {
    match level {
        Level::Error => 1,
        Level::Warn => 2,
        Level::Info => 3,
        Level::Debug => 4,
        Level::Trace => 5,
    }
}

/// Whether an event goes to standard output.
pub fn to_stdout(level: Level) -> (r: bool)
    ensures
        r == (verbosity(level) >= verbosity(Level::Info)),
{
    match level {
        Level::Error | Level::Warn => false,
        Level::Info | Level::Debug | Level::Trace => true,
    }
}

/// Whether an event goes to standard error.
pub fn to_stderr(level: Level) -> (r: bool)
    ensures
        r == (verbosity(level) <= verbosity(Level::Warn)),
{
    match level {
        Level::Error | Level::Warn => true,
        Level::Info | Level::Debug | Level::Trace => false,
    }
}

/// Every event lands on exactly one stream.
pub proof fn law_one_stream_per_event(level: Level)
    ensures
        (verbosity(level) >= verbosity(Level::Info)) != (verbosity(level) <= verbosity(
            Level::Warn,
        )),
{
}

} // verus!
