//! Compatibility with the old simple API: the same names, carried by the
//! explicit registry instead of hidden process-wide state.

use crate::error::LoggerError;
use crate::registry::{spec_registry_log_outcome, Registry};
use crate::writer::Effects;
use vstd::prelude::*;

verus! {

/// Legacy logger entry points; each logs through the registry's current
/// logger (initializing a default one when none exists) and drops the result,
/// as the old API did.
pub struct Logger;

impl Logger {
    /// Logs a message (legacy compatibility; logs at info level).
    pub fn log(registry: &mut Registry, message: &str, fx: &mut Effects)
        ensures
            exists|res: Result<(), LoggerError>|
                #![auto]
                spec_registry_log_outcome(
                    *old(registry),
                    *final(registry),
                    old(fx)@,
                    final(fx)@,
                    crate::level::LogLevel::Info,
                    message@,
                    None,
                    None,
                    res,
                ),
    {
        let _ = registry.log_info(message, fx);
    }

    /// Logs an error message (legacy compatibility).
    pub fn error(registry: &mut Registry, message: &str, fx: &mut Effects)
        ensures
            exists|res: Result<(), LoggerError>|
                #![auto]
                spec_registry_log_outcome(
                    *old(registry),
                    *final(registry),
                    old(fx)@,
                    final(fx)@,
                    crate::level::LogLevel::Error,
                    message@,
                    None,
                    None,
                    res,
                ),
    {
        let _ = registry.log_error(message, fx);
    }

    /// Logs a warning message (legacy compatibility).
    pub fn warning(registry: &mut Registry, message: &str, fx: &mut Effects)
        ensures
            exists|res: Result<(), LoggerError>|
                #![auto]
                spec_registry_log_outcome(
                    *old(registry),
                    *final(registry),
                    old(fx)@,
                    final(fx)@,
                    crate::level::LogLevel::Warning,
                    message@,
                    None,
                    None,
                    res,
                ),
    {
        let _ = registry.log_warning(message, fx);
    }

    /// Logs a debug message (legacy compatibility).
    pub fn debug(registry: &mut Registry, message: &str, fx: &mut Effects)
        ensures
            exists|res: Result<(), LoggerError>|
                #![auto]
                spec_registry_log_outcome(
                    *old(registry),
                    *final(registry),
                    old(fx)@,
                    final(fx)@,
                    crate::level::LogLevel::Debug,
                    message@,
                    None,
                    None,
                    res,
                ),
    {
        let _ = registry.log_debug(message, fx);
    }

    /// Logs an info message (legacy compatibility).
    pub fn info(registry: &mut Registry, message: &str, fx: &mut Effects)
        ensures
            exists|res: Result<(), LoggerError>|
                #![auto]
                spec_registry_log_outcome(
                    *old(registry),
                    *final(registry),
                    old(fx)@,
                    final(fx)@,
                    crate::level::LogLevel::Info,
                    message@,
                    None,
                    None,
                    res,
                ),
    {
        let _ = registry.log_info(message, fx);
    }

    /// Logs a success message (legacy compatibility).
    pub fn success(registry: &mut Registry, message: &str, fx: &mut Effects)
        ensures
            exists|res: Result<(), LoggerError>|
                #![auto]
                spec_registry_log_outcome(
                    *old(registry),
                    *final(registry),
                    old(fx)@,
                    final(fx)@,
                    crate::level::LogLevel::Success,
                    message@,
                    None,
                    None,
                    res,
                ),
    {
        let _ = registry.log_success(message, fx);
    }
}

/// Legacy color table.
pub struct Colours;

impl Colours {
    /// Red foreground.
    pub fn red() -> (r: &'static str)
        ensures
            r@ == "\x1b[31m"@,
    {
        "\x1b[31m"
    }

    /// Green foreground.
    pub fn green() -> (r: &'static str)
        ensures
            r@ == "\x1b[32m"@,
    {
        "\x1b[32m"
    }

    /// Yellow foreground.
    pub fn yellow() -> (r: &'static str)
        ensures
            r@ == "\x1b[33m"@,
    {
        "\x1b[33m"
    }

    /// Blue foreground.
    pub fn blue() -> (r: &'static str)
        ensures
            r@ == "\x1b[34m"@,
    {
        "\x1b[34m"
    }

    /// Cyan foreground.
    pub fn cyan() -> (r: &'static str)
        ensures
            r@ == "\x1b[36m"@,
    {
        "\x1b[36m"
    }

    /// White foreground.
    pub fn white() -> (r: &'static str)
        ensures
            r@ == "\x1b[37m"@,
    {
        "\x1b[37m"
    }
}

/// Legacy log levels, kept for source compatibility with the old API;
/// unrelated to the engine's own levels.
#[derive(Debug, PartialEq, Eq, Structural, Clone, Copy)]
pub enum LogLevel {
    Error,
    Warning,
    Debug,
    Success,
    Info,
    Log,
}

impl LogLevel {
    /// The legacy level's upper-case name.
    pub fn as_str(&self) -> (r: &'static str)
        ensures
            r@ == match *self {
                LogLevel::Error => "ERROR"@,
                LogLevel::Warning => "WARNING"@,
                LogLevel::Debug => "DEBUG"@,
                LogLevel::Success => "SUCCESS"@,
                LogLevel::Info => "INFO"@,
                LogLevel::Log => "LOG"@,
            },
    {
        match self {
            LogLevel::Error => "ERROR",
            LogLevel::Warning => "WARNING",
            LogLevel::Debug => "DEBUG",
            LogLevel::Success => "SUCCESS",
            LogLevel::Info => "INFO",
            LogLevel::Log => "LOG",
        }
    }
}

} // verus!
