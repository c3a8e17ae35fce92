//! Log levels and their severity order.

use crate::error::LoggerError;
use crate::text::{spec_eq_ci, str_eq_ignore_ascii_case};
use vstd::prelude::*;
use vstd::string::StringExecFns;

verus! {

/// Severity levels, from most severe (`Error`) to least severe (`Debug`).
///
/// The numeric rank grows as severity falls: `Error` has rank 0 and `Debug`
/// rank 4. A record passes a threshold when its rank is at most the
/// threshold's rank.
#[derive(Debug, Clone, Copy, PartialEq, Eq, PartialOrd, Ord, Hash, Structural)]
pub enum LogLevel {
    /// Highest severity.
    Error,
    Warning,
    Info,
    Success,
    /// Lowest severity.
    Debug,
}

impl View for LogLevel {
    type V = LogLevel;

    open spec fn view(&self) -> LogLevel {
        *self
    }
}

impl LogLevel {
    /// The numeric rank of the level: 0 for `Error` up to 4 for `Debug`.
    pub open spec fn spec_rank(self) -> int {
        match self {
            LogLevel::Error => 0,
            LogLevel::Warning => 1,
            LogLevel::Info => 2,
            LogLevel::Success => 3,
            LogLevel::Debug => 4,
        }
    }

    /// Numeric rank used for filtering; lower rank means higher severity.
    pub fn rank(self) -> (r: u8)
        ensures
            r as int == self.spec_rank(),
    {
        match self {
            LogLevel::Error => 0,
            LogLevel::Warning => 1,
            LogLevel::Info => 2,
            LogLevel::Success => 3,
            LogLevel::Debug => 4,
        }
    }

    /// Whether a record at this level passes a filter whose threshold is
    /// `threshold`: true when this level is at least as severe.
    pub open spec fn spec_passes(self, threshold: LogLevel) -> bool {
        self.spec_rank() <= threshold.spec_rank()
    }

    /// Whether a record at this level passes the given threshold.
    pub fn passes(self, threshold: LogLevel) -> (r: bool)
        ensures
            r == self.spec_passes(threshold),
    {
        self.rank() <= threshold.rank()
    }

    /// The level's upper-case name.
    pub open spec fn spec_name(self) -> Seq<char> {
        match self {
            LogLevel::Error => "ERROR"@,
            LogLevel::Warning => "WARNING"@,
            LogLevel::Info => "INFO"@,
            LogLevel::Success => "SUCCESS"@,
            LogLevel::Debug => "DEBUG"@,
        }
    }

    /// Returns the string representation of the log level.
    pub fn as_str(&self) -> (r: &'static str)
        ensures
            r@ == self.spec_name(),
    {
        match self {
            LogLevel::Error => "ERROR",
            LogLevel::Warning => "WARNING",
            LogLevel::Info => "INFO",
            LogLevel::Success => "SUCCESS",
            LogLevel::Debug => "DEBUG",
        }
    }

    /// Returns all log levels in order of priority, most severe first.
    pub fn all() -> (r: Vec<LogLevel>)
        ensures
            r@ == seq![
                LogLevel::Error,
                LogLevel::Warning,
                LogLevel::Info,
                LogLevel::Success,
                LogLevel::Debug,
            ],
    {
        let mut v: Vec<LogLevel> = Vec::new();
        v.push(LogLevel::Error);
        v.push(LogLevel::Warning);
        v.push(LogLevel::Info);
        v.push(LogLevel::Success);
        v.push(LogLevel::Debug);
        proof {
            assert(v@ =~= seq![
                LogLevel::Error,
                LogLevel::Warning,
                LogLevel::Info,
                LogLevel::Success,
                LogLevel::Debug,
            ]);
        }
        v
    }

    /// The level a piece of text names, compared without regard to ASCII
    /// case; `WARN` is accepted for `Warning`.
    pub open spec fn spec_parse(s: Seq<char>) -> Option<LogLevel> {
        if spec_eq_ci(s, "ERROR"@) {
            Some(LogLevel::Error)
        } else if spec_eq_ci(s, "WARNING"@) || spec_eq_ci(s, "WARN"@) {
            Some(LogLevel::Warning)
        } else if spec_eq_ci(s, "INFO"@) {
            Some(LogLevel::Info)
        } else if spec_eq_ci(s, "SUCCESS"@) {
            Some(LogLevel::Success)
        } else if spec_eq_ci(s, "DEBUG"@) {
            Some(LogLevel::Debug)
        } else {
            None
        }
    }

    /// Parses a level name, without regard to ASCII case; any other text is
    /// a configuration error naming the rejected text.
    pub fn parse_level(s: &str) -> (r: Result<LogLevel, LoggerError>)
        ensures
            LogLevel::spec_parse(s@) matches Some(l) ==> r == Ok::<LogLevel, LoggerError>(l),
            LogLevel::spec_parse(s@) is None ==> (r matches Err(LoggerError::Config(m)) && m@
                == "Invalid log level: "@ + s@),
    {
        if str_eq_ignore_ascii_case(s, "ERROR") {
            Ok(LogLevel::Error)
        } else if str_eq_ignore_ascii_case(s, "WARNING") || str_eq_ignore_ascii_case(s, "WARN") {
            Ok(LogLevel::Warning)
        } else if str_eq_ignore_ascii_case(s, "INFO") {
            Ok(LogLevel::Info)
        } else if str_eq_ignore_ascii_case(s, "SUCCESS") {
            Ok(LogLevel::Success)
        } else if str_eq_ignore_ascii_case(s, "DEBUG") {
            Ok(LogLevel::Debug)
        } else {
            let mut m = String::new();
            m.append("Invalid log level: ");
            m.append(s);
            proof {
                assert(m@ =~= "Invalid log level: "@ + s@);
            }
            Err(LoggerError::Config(m))
        }
    }
}

impl core::str::FromStr for LogLevel {
    type Err = LoggerError;

    /// Parses a level name (see [`LogLevel::parse_level`]).
    fn from_str(s: &str) -> (r: Result<LogLevel, LoggerError>) {
        LogLevel::parse_level(s)
    }
}

} // verus!
