use vstd::prelude::*;

verus! {

/// Severity of a log event.
#[derive(Clone, Copy, Debug, PartialEq, Eq, Structural)]
pub enum LogLevel {
    INFO,
    ERROR,
}

/// The name a level is written with.
pub open spec fn level_name(level: LogLevel) -> Seq<char> {
    match level {
        LogLevel::INFO => "INFO"@,
        LogLevel::ERROR => "ERROR"@,
    }
}

impl LogLevel {
    /// The level's name, `"INFO"` or `"ERROR"`.
    pub fn name(&self) -> (r: &'static str)
        ensures
            r@ == level_name(*self),
    {
        match self {
            LogLevel::INFO => "INFO",
            LogLevel::ERROR => "ERROR",
        }
    }
}

impl Default for LogLevel {
    fn default() -> (r: LogLevel)
        ensures
            r == LogLevel::INFO,
    {
        LogLevel::INFO
    }
}

} // verus!
