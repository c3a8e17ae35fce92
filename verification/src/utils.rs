//! Utilities for common logging patterns: a prefixing logger, rate limiting,
//! and execution timing.

use crate::error::LoggerError;
use crate::level::LogLevel;
use crate::registry::{spec_registry_log_outcome, Registry};
use crate::text::{spec_dec, u64_to_dec};
use crate::time::now_millis;
use crate::writer::Effects;
use vstd::prelude::*;
use vstd::string::StringExecFns;

verus! {

/// A logger that adds a prefix to every message before handing it to the
/// registry's current logger.
pub struct ScopedLogger {
    /// The prefix, rendered `[prefix] ` before each message.
    pub prefix: String,
}

/// The message a scoped logger hands on for `message`.
pub open spec fn spec_prefixed(prefix: Seq<char>, message: Seq<char>) -> Seq<char> {
    "["@ + prefix + "] "@ + message
}

impl ScopedLogger {
    /// Creates a new scoped logger with the given prefix.
    pub fn new(prefix: &str) -> (r: ScopedLogger)
        ensures
            r.prefix@ == prefix@,
    {
        let mut p = String::new();
        p.append(prefix);
        proof {
            assert(p@ =~= prefix@);
        }
        ScopedLogger { prefix: p }
    }

    /// Logs a message with the scoped prefix; the result of the underlying
    /// call is dropped, as a prefixing convenience never fails its caller.
    pub fn log(&self, registry: &mut Registry, level: LogLevel, message: &str, fx: &mut Effects)
        ensures
            exists|res: Result<(), LoggerError>|
                #![auto]
                spec_registry_log_outcome(
                    *old(registry),
                    *final(registry),
                    old(fx)@,
                    final(fx)@,
                    level,
                    spec_prefixed(self.prefix@, message@),
                    None,
                    None,
                    res,
                ),
    {
        let mut m = String::new();
        m.append("[");
        m.append(self.prefix.as_str());
        m.append("] ");
        m.append(message);
        proof {
            assert(m@ =~= spec_prefixed(self.prefix@, message@));
        }
        let _ = registry.log_with_caller(level, m.as_str(), None, None, fx);
    }

    /// Logs an error message with the scoped prefix.
    pub fn error(&self, registry: &mut Registry, message: &str, fx: &mut Effects)
        ensures
            exists|res: Result<(), LoggerError>|
                #![auto]
                spec_registry_log_outcome(
                    *old(registry),
                    *final(registry),
                    old(fx)@,
                    final(fx)@,
                    LogLevel::Error,
                    spec_prefixed(self.prefix@, message@),
                    None,
                    None,
                    res,
                ),
    {
        self.log(registry, LogLevel::Error, message, fx);
    }

    /// Logs a warning message with the scoped prefix.
    pub fn warning(&self, registry: &mut Registry, message: &str, fx: &mut Effects)
        ensures
            exists|res: Result<(), LoggerError>|
                #![auto]
                spec_registry_log_outcome(
                    *old(registry),
                    *final(registry),
                    old(fx)@,
                    final(fx)@,
                    LogLevel::Warning,
                    spec_prefixed(self.prefix@, message@),
                    None,
                    None,
                    res,
                ),
    {
        self.log(registry, LogLevel::Warning, message, fx);
    }

    /// Logs an info message with the scoped prefix.
    pub fn info(&self, registry: &mut Registry, message: &str, fx: &mut Effects)
        ensures
            exists|res: Result<(), LoggerError>|
                #![auto]
                spec_registry_log_outcome(
                    *old(registry),
                    *final(registry),
                    old(fx)@,
                    final(fx)@,
                    LogLevel::Info,
                    spec_prefixed(self.prefix@, message@),
                    None,
                    None,
                    res,
                ),
    {
        self.log(registry, LogLevel::Info, message, fx);
    }

    /// Logs a success message with the scoped prefix.
    pub fn success(&self, registry: &mut Registry, message: &str, fx: &mut Effects)
        ensures
            exists|res: Result<(), LoggerError>|
                #![auto]
                spec_registry_log_outcome(
                    *old(registry),
                    *final(registry),
                    old(fx)@,
                    final(fx)@,
                    LogLevel::Success,
                    spec_prefixed(self.prefix@, message@),
                    None,
                    None,
                    res,
                ),
    {
        self.log(registry, LogLevel::Success, message, fx);
    }

    /// Logs a debug message with the scoped prefix.
    pub fn debug(&self, registry: &mut Registry, message: &str, fx: &mut Effects)
        ensures
            exists|res: Result<(), LoggerError>|
                #![auto]
                spec_registry_log_outcome(
                    *old(registry),
                    *final(registry),
                    old(fx)@,
                    final(fx)@,
                    LogLevel::Debug,
                    spec_prefixed(self.prefix@, message@),
                    None,
                    None,
                    res,
                ),
    {
        self.log(registry, LogLevel::Debug, message, fx);
    }
}

/// Helper for rate limiting log messages.
pub struct RateLimiter {
    /// When the limiter last let a message through, if ever.
    pub last_log: Option<u64>,
    /// Minimum interval between messages, in milliseconds.
    pub interval: u64,
}

/// Whether the limiter lets a message through at `now`: always on first use,
/// then once the interval has elapsed since the last accepted message.
pub open spec fn spec_should_fire(rl: RateLimiter, now: u64) -> bool {
    match rl.last_log {
        Some(last) => (if now >= last {
            now - last
        } else {
            0
        }) >= rl.interval,
        None => true,
    }
}

impl RateLimiter {
    /// Creates a new rate limiter with the given interval in milliseconds.
    pub fn new(interval_millis: u64) -> (r: RateLimiter)
        ensures
            r.last_log is None,
            r.interval == interval_millis,
    {
        RateLimiter { last_log: None, interval: interval_millis }
    }

    /// Attempts to log a message at `now`, respecting the rate limit: returns
    /// whether the message went through.
    pub fn log_at(
        &mut self,
        registry: &mut Registry,
        level: LogLevel,
        message: &str,
        now: u64,
        fx: &mut Effects,
    ) -> (r: bool)
        ensures
            r == spec_should_fire(*old(self), now),
            final(self).interval == old(self).interval,
            r ==> final(self).last_log == Some(now) && (exists|res: Result<(), LoggerError>|
                #![auto]
                spec_registry_log_outcome(
                    *old(registry),
                    *final(registry),
                    old(fx)@,
                    final(fx)@,
                    level,
                    message@,
                    None,
                    None,
                    res,
                )),
            !r ==> *final(self) == *old(self) && *final(registry) == *old(registry) && final(fx)@
                == old(fx)@,
    {
        let should = match self.last_log {
            Some(last) => {
                let elapsed = if now >= last {
                    now - last
                } else {
                    0
                };
                elapsed >= self.interval
            },
            None => true,
        };
        if should {
            self.last_log = Some(now);
            let _ = registry.log_with_caller(level, message, None, None, fx);
            true
        } else {
            false
        }
    }

    /// Attempts to log a message, reading the clock for the rate limit:
    /// returns whether the message went through, firing exactly when the
    /// interval since the last accepted message has elapsed; when it fires
    /// the message goes through the registry's current logger and the clock
    /// reading becomes the new baseline.
    pub fn log(
        &mut self,
        registry: &mut Registry,
        level: LogLevel,
        message: &str,
        fx: &mut Effects,
    ) -> (r: bool)
        ensures
            final(self).interval == old(self).interval,
            exists|now: u64|
                #![trigger spec_should_fire(*old(self), now)]
                {
                    &&& r == spec_should_fire(*old(self), now)
                    &&& (r ==> final(self).last_log == Some(now))
                },
            r ==> (exists|res: Result<(), LoggerError>|
                #![auto]
                spec_registry_log_outcome(
                    *old(registry),
                    *final(registry),
                    old(fx)@,
                    final(fx)@,
                    level,
                    message@,
                    None,
                    None,
                    res,
                )),
            !r ==> *final(self) == *old(self) && *final(registry) == *old(registry) && final(fx)@
                == old(fx)@,
    {
        let now = now_millis();
        let r = self.log_at(registry, level, message, now, fx);
        proof {
            assert(r == spec_should_fire(*old(self), now));
        }
        r
    }
}

/// The timing message `log_execution_time` logs for `name` and a duration in
/// milliseconds.
pub open spec fn spec_timing_message(name: Seq<char>, millis: nat) -> Seq<char> {
    name + " completed in "@ + spec_dec(millis) + "ms"@
}

/// Runs `f` once, logs one timing message (`name`, then the elapsed
/// milliseconds) at `level` through the registry's current logger, and hands
/// back `f`'s result unchanged; a logging failure is dropped and cannot
/// alter the result.
pub fn log_execution_time<F, R>(
    registry: &mut Registry,
    level: LogLevel,
    name: &str,
    f: F,
    fx: &mut Effects,
) -> (result: R) where F: FnOnce() -> R
    requires
        f.requires(()),
    ensures
        f.ensures((), result),
        exists|elapsed: u64, res: Result<(), LoggerError>|
            #![auto]
            spec_registry_log_outcome(
                *old(registry),
                *final(registry),
                old(fx)@,
                final(fx)@,
                level,
                spec_timing_message(name@, elapsed as nat),
                None,
                None,
                res,
            ),
{
    let start = now_millis();
    let result = f();
    let end = now_millis();
    let elapsed = if end >= start {
        end - start
    } else {
        0
    };
    let mut m = String::new();
    m.append(name);
    m.append(" completed in ");
    let d = u64_to_dec(elapsed);
    m.append(d.as_str());
    m.append("ms");
    proof {
        assert(m@ =~= spec_timing_message(name@, elapsed as nat));
    }
    let _ = registry.log_with_caller(level, m.as_str(), None, None, fx);
    result
}

} // verus!
