//! The registry: an explicit object standing for the process-wide logger and
//! the stack of scoped overrides. Resolution picks the top of the stack, then
//! the default logger, and otherwise initializes a default logger lazily, so
//! logging never fails for want of initialization. The shell that owns the
//! process-wide state holds one `Registry` behind its own lock.

use crate::config::{spec_config_default, spec_config_eq, spec_config_valid, LoggerConfig};
use crate::error::LoggerError;
use crate::level::LogLevel;
use crate::logger::{
    instance_wf, queue_view, spec_flush_outcome, spec_fresh_stats, spec_graph_built,
    spec_log_outcome, spec_open_ops, LoggerInstance, LoggerStats,
};
use crate::record::{opt_caller_view, opt_str_view, CallerInfo, CallerView};
use crate::time::CalendarStamp;
use crate::writer::{Effects, EffectsView};
use vstd::prelude::*;

verus! {

/// The registry: the optional process-wide logger and the stack of scoped
/// overrides, top last.
pub struct Registry {
    /// The process-wide default logger, once initialized.
    pub default: Option<LoggerInstance>,
    /// Scoped overrides; the top of the stack shadows everything else.
    pub scoped: Vec<LoggerInstance>,
}

/// Whether some logger is current: a scoped override or the default.
pub open spec fn spec_has_current(r: Registry) -> bool {
    r.scoped@.len() > 0 || r.default is Some
}

/// The current logger: the top scoped override, else the default.
pub open spec fn spec_current(r: Registry) -> LoggerInstance {
    if r.scoped@.len() > 0 {
        r.scoped@.last()
    } else {
        r.default->Some_0
    }
}

/// Everything one registry-level log call promises. With a scoped override
/// the record goes through the top of the stack and nothing else moves; with
/// a default logger it goes through that; with neither, a default-configured
/// logger is initialized first and the call succeeds.
pub open spec fn spec_registry_log_outcome(
    r0: Registry,
    r1: Registry,
    fx0: EffectsView,
    fx1: EffectsView,
    level: LogLevel,
    message: Seq<char>,
    caller: Option<CallerView>,
    module: Option<Seq<char>>,
    res: Result<(), LoggerError>,
) -> bool {
    if r0.scoped@.len() > 0 {
        &&& r1.scoped@.len() == r0.scoped@.len()
        &&& r1.scoped@.subrange(0, r0.scoped@.len() - 1) == r0.scoped@.subrange(
            0,
            r0.scoped@.len() - 1,
        )
        &&& r1.default == r0.default
        &&& exists|now: u64, stamp: CalendarStamp|
            #![auto]
            spec_log_outcome(
                r0.scoped@.last(),
                r1.scoped@.last(),
                fx0,
                fx1,
                level,
                message,
                caller,
                module,
                None,
                now,
                stamp,
                res,
            )
    } else {
        &&& r1.scoped@.len() == 0
        &&& r1.default is Some
        &&& match r0.default {
            Some(d) => exists|now: u64, stamp: CalendarStamp|
                #![auto]
                spec_log_outcome(
                    d,
                    r1.default->Some_0,
                    fx0,
                    fx1,
                    level,
                    message,
                    caller,
                    module,
                    None,
                    now,
                    stamp,
                    res,
                ),
            None => res is Ok,
        }
    }
}

impl Registry {
    /// Creates an empty registry: no default logger, no overrides.
    pub fn new() -> (r: Registry)
        ensures
            r.default is None,
            r.scoped@.len() == 0,
    {
        Registry { default: None, scoped: Vec::new() }
    }

    /// Initializes the process-wide logger. A second initialization fails
    /// with `AlreadyInitialized` and leaves the first logger untouched, and a
    /// failed initialization leaves the registry uninitialized. On success
    /// the stored logger carries the writer graph the configuration asks for,
    /// on fresh statistics, and the journal gains the log file's open.
    pub fn init(&mut self, config: LoggerConfig, fx: &mut Effects) -> (r: Result<(), LoggerError>)
        ensures
            old(self).default is Some ==> (r matches Err(LoggerError::AlreadyInitialized)
                && *final(self) == *old(self) && final(fx)@ == old(fx)@),
            old(self).default is None ==> {
                &&& (r is Ok <==> spec_config_valid(config))
                &&& final(self).scoped == old(self).scoped
                &&& (r matches Ok(()) ==> {
                    &&& (final(self).default matches Some(l) && spec_config_eq(l.config, config)
                        && instance_wf(l) && (l.queue matches Some(q) ==> queue_view(q).len() == 0)
                        && (exists|now: u64|
                        spec_graph_built(l, now) && l.stats == spec_fresh_stats(now)))
                    &&& final(fx)@.console == old(fx)@.console
                    &&& final(fx)@.file_ops == old(fx)@.file_ops + spec_open_ops(config)
                })
                &&& (r is Err ==> final(self).default is None && final(fx)@ == old(fx)@)
            },
    {
        if self.default.is_some() {
            return Err(LoggerError::AlreadyInitialized);
        }
        match LoggerInstance::new(config, fx) {
            Ok(l) => {
                self.default = Some(l);
                Ok(())
            },
            Err(e) => Err(e),
        }
    }

    /// Initializes the process-wide logger with the default configuration;
    /// the default configuration is valid, so only a second initialization
    /// can fail. The default configuration writes no file, so the journal is
    /// untouched.
    pub fn init_default(&mut self, fx: &mut Effects) -> (r: Result<(), LoggerError>)
        ensures
            old(self).default is Some ==> (r matches Err(LoggerError::AlreadyInitialized)
                && *final(self) == *old(self) && final(fx)@ == old(fx)@),
            old(self).default is None ==> {
                &&& r is Ok
                &&& final(self).scoped == old(self).scoped
                &&& (final(self).default matches Some(l) && spec_config_default(l.config)
                    && instance_wf(l) && l.queue is None && (exists|now: u64|
                    spec_graph_built(l, now) && l.stats == spec_fresh_stats(now)))
                &&& final(fx)@.console == old(fx)@.console
                &&& final(fx)@.file_ops == old(fx)@.file_ops
            },
    {
        let config = LoggerConfig::default();
        proof {
            assert(spec_config_valid(config));
            assert(spec_open_ops(config) =~= Seq::<crate::writer::FileOpView>::empty());
        }
        let r = self.init(config, fx);
        proof {
            if old(self).default is None {
                assert(r is Ok);
                assert(fx@.file_ops =~= old(fx)@.file_ops + spec_open_ops(config));
                assert(fx@.file_ops =~= old(fx)@.file_ops);
            }
        }
        r
    }

    /// Whether the process-wide logger is initialized.
    pub fn is_initialized(&self) -> (r: bool)
        ensures
            r == (self.default is Some),
    {
        self.default.is_some()
    }

    /// The process-wide logger, if initialized.
    pub fn logger(&self) -> (r: Option<&LoggerInstance>)
        ensures
            match r {
                Some(l) => self.default matches Some(d) && *l == d,
                None => self.default is None,
            },
    {
        match &self.default {
            Some(l) => Some(l),
            None => None,
        }
    }

    /// Pushes a scoped override: until it is popped, it shadows the default
    /// logger and every override below it.
    pub fn push_scoped(&mut self, logger: LoggerInstance)
        ensures
            final(self).scoped@ == old(self).scoped@.push(logger),
            final(self).default == old(self).default,
    {
        self.scoped.push(logger);
    }

    /// Pops the top scoped override and hands it back, restoring whatever was
    /// current before it was pushed.
    pub fn pop_scoped(&mut self) -> (r: Option<LoggerInstance>)
        ensures
            final(self).default == old(self).default,
            old(self).scoped@.len() == 0 ==> r is None && final(self).scoped@ == old(self).scoped@,
            old(self).scoped@.len() > 0 ==> (r matches Some(l) && l == old(self).scoped@.last()
                && final(self).scoped@ == old(self).scoped@.drop_last()),
    {
        let r = self.scoped.pop();
        proof {
            if old(self).scoped@.len() > 0 {
                assert(self.scoped@ =~= old(self).scoped@.drop_last());
            }
        }
        r
    }

    /// Makes sure a default logger exists, initializing one with the default
    /// configuration when none does. The default configuration writes no
    /// file, so the journal is untouched.
    fn ensure_default(&mut self, fx: &mut Effects)
        ensures
            final(self).scoped == old(self).scoped,
            final(self).default is Some,
            old(self).default is Some ==> *final(self) == *old(self),
            old(self).default is None ==> (final(self).default matches Some(l)
                && spec_config_default(l.config) && instance_wf(l) && l.queue is None && (
            exists|now: u64| spec_graph_built(l, now) && l.stats == spec_fresh_stats(now))),
            final(fx)@ == old(fx)@,
    {
        if self.default.is_none() {
            let config = LoggerConfig::default();
            proof {
                assert(spec_config_valid(config));
                assert(!config.async_enabled);
                assert(spec_open_ops(config) =~= Seq::<crate::writer::FileOpView>::empty());
            }
            match LoggerInstance::new(config, fx) {
                Ok(l) => {
                    self.default = Some(l);
                },
                Err(_) => {},
            }
            proof {
                assert(fx@.file_ops =~= old(fx)@.file_ops);
            }
        }
    }

    /// Logs through the current logger: the top scoped override, else the
    /// default logger, else a lazily initialized default logger.
    pub fn log_with_caller(
        &mut self,
        level: LogLevel,
        message: &str,
        caller: Option<CallerInfo>,
        module: Option<&str>,
        fx: &mut Effects,
    ) -> (r: Result<(), LoggerError>)
        ensures
            spec_registry_log_outcome(
                *old(self),
                *final(self),
                old(fx)@,
                final(fx)@,
                level,
                message@,
                opt_caller_view(caller),
                opt_str_view(module),
                r,
            ),
    {
        let n = self.scoped.len();
        if n > 0 {
            let ghost pre = self.scoped@;
            let l = &mut self.scoped[n - 1];
            let r = l.log_with_caller(level, message, caller, module, fx);
            proof {
                assert(self.scoped@.len() == pre.len());
                assert(self.scoped@.subrange(0, pre.len() - 1) =~= pre.subrange(
                    0,
                    pre.len() - 1,
                ));
                assert(pre.last() == pre[n - 1]);
                assert(self.scoped@.last() == self.scoped@[n - 1]);
            }
            r
        } else {
            self.ensure_default(fx);
            let ghost had_default = old(self).default is Some;
            let ghost fresh = self.default;
            let ghost fx_mid = fx@;
            let r = match &mut self.default {
                Some(l) => l.log_with_caller(level, message, caller, module, fx),
                None => Err(LoggerError::NotInitialized),
            };
            proof {
                let d0 = fresh->Some_0;
                let d1 = self.default->Some_0;
                let (now, stamp) = choose|now: u64, stamp: CalendarStamp|
                    #![auto]
                    spec_log_outcome(
                        d0,
                        d1,
                        fx_mid,
                        fx@,
                        level,
                        message@,
                        opt_caller_view(caller),
                        opt_str_view(module),
                        None,
                        now,
                        stamp,
                        r,
                    );
                if had_default {
                    assert(fx_mid == old(fx)@);
                    assert(d0 == old(self).default->Some_0);
                    assert(spec_log_outcome(
                        d0,
                        d1,
                        old(fx)@,
                        fx@,
                        level,
                        message@,
                        opt_caller_view(caller),
                        opt_str_view(module),
                        None,
                        now,
                        stamp,
                        r,
                    ));
                } else {
                    assert(d0.queue is None);
                    assert(r is Ok);
                }
            }
            r
        }
    }

    /// Logs an error message through the current logger.
    pub fn log_error(&mut self, message: &str, fx: &mut Effects) -> (r: Result<(), LoggerError>)
        ensures
            spec_registry_log_outcome(
                *old(self),
                *final(self),
                old(fx)@,
                final(fx)@,
                LogLevel::Error,
                message@,
                None,
                None,
                r,
            ),
    {
        self.log_with_caller(LogLevel::Error, message, None, None, fx)
    }

    /// Logs a warning message through the current logger.
    pub fn log_warning(&mut self, message: &str, fx: &mut Effects) -> (r: Result<(), LoggerError>)
        ensures
            spec_registry_log_outcome(
                *old(self),
                *final(self),
                old(fx)@,
                final(fx)@,
                LogLevel::Warning,
                message@,
                None,
                None,
                r,
            ),
    {
        self.log_with_caller(LogLevel::Warning, message, None, None, fx)
    }

    /// Logs an info message through the current logger.
    pub fn log_info(&mut self, message: &str, fx: &mut Effects) -> (r: Result<(), LoggerError>)
        ensures
            spec_registry_log_outcome(
                *old(self),
                *final(self),
                old(fx)@,
                final(fx)@,
                LogLevel::Info,
                message@,
                None,
                None,
                r,
            ),
    {
        self.log_with_caller(LogLevel::Info, message, None, None, fx)
    }

    /// Logs a success message through the current logger.
    pub fn log_success(&mut self, message: &str, fx: &mut Effects) -> (r: Result<(), LoggerError>)
        ensures
            spec_registry_log_outcome(
                *old(self),
                *final(self),
                old(fx)@,
                final(fx)@,
                LogLevel::Success,
                message@,
                None,
                None,
                r,
            ),
    {
        self.log_with_caller(LogLevel::Success, message, None, None, fx)
    }

    /// Logs a debug message through the current logger.
    pub fn log_debug(&mut self, message: &str, fx: &mut Effects) -> (r: Result<(), LoggerError>)
        ensures
            spec_registry_log_outcome(
                *old(self),
                *final(self),
                old(fx)@,
                final(fx)@,
                LogLevel::Debug,
                message@,
                None,
                None,
                r,
            ),
    {
        self.log_with_caller(LogLevel::Debug, message, None, None, fx)
    }

    /// Logs with the caller's location, as the call-site sugar captures it.
    pub fn __log_with_location(
        &mut self,
        level: LogLevel,
        message: &str,
        file: &'static str,
        line: u32,
        module: Option<&'static str>,
        fx: &mut Effects,
    ) -> (r: Result<(), LoggerError>)
        ensures
            spec_registry_log_outcome(
                *old(self),
                *final(self),
                old(fx)@,
                final(fx)@,
                level,
                message@,
                Some(CallerView { file: file@, line, module: opt_str_view(module) }),
                opt_str_view(module),
                r,
            ),
    {
        let caller = CallerInfo { file, line, module };
        self.log_with_caller(level, message, Some(caller), module, fx)
    }

    /// Flushes the current logger — the top scoped override, else the default
    /// logger, else a lazily initialized default one. In asynchronous mode
    /// the flush first drains every queued record (see
    /// [`spec_flush_outcome`]): after it, the current logger's queue is empty
    /// and its sinks' buffered output is on its way to the world.
    pub fn flush(&mut self, fx: &mut Effects) -> (r: Result<(), LoggerError>)
        ensures
            r is Ok,
            old(self).scoped@.len() > 0 ==> {
                &&& final(self).scoped@.len() == old(self).scoped@.len()
                &&& final(self).scoped@.subrange(0, old(self).scoped@.len() - 1) == old(
                    self,
                ).scoped@.subrange(0, old(self).scoped@.len() - 1)
                &&& final(self).default == old(self).default
                &&& spec_flush_outcome(
                    old(self).scoped@.last(),
                    final(self).scoped@.last(),
                    old(fx)@,
                    final(fx)@,
                )
            },
            old(self).scoped@.len() == 0 ==> {
                &&& final(self).scoped@.len() == 0
                &&& final(self).default is Some
                &&& (old(self).default matches Some(d) ==> spec_flush_outcome(
                    d,
                    final(self).default->Some_0,
                    old(fx)@,
                    final(fx)@,
                ))
                &&& (old(self).default is None ==> (final(self).default matches Some(l1) && (
                exists|l0: LoggerInstance|
                    #![trigger spec_flush_outcome(l0, l1, old(fx)@, final(fx)@)]
                    spec_config_default(l0.config) && l0.queue is None && spec_flush_outcome(
                        l0,
                        l1,
                        old(fx)@,
                        final(fx)@,
                    ))))
            },
    {
        let n = self.scoped.len();
        if n > 0 {
            let ghost pre = self.scoped@;
            let l = &mut self.scoped[n - 1];
            let r = l.flush(fx);
            proof {
                assert(self.scoped@.len() == pre.len());
                assert(self.scoped@.subrange(0, pre.len() - 1) =~= pre.subrange(0, pre.len() - 1));
                assert(pre.last() == pre[n - 1]);
                assert(self.scoped@.last() == self.scoped@[n - 1]);
            }
            r
        } else {
            self.ensure_default(fx);
            let ghost fresh = self.default;
            let r = match &mut self.default {
                Some(l) => l.flush(fx),
                None => Ok(()),
            };
            proof {
                if old(self).default is None {
                    let l0 = fresh->Some_0;
                    let l1 = self.default->Some_0;
                    assert(spec_flush_outcome(l0, l1, old(fx)@, fx@));
                }
            }
            r
        }
    }

    /// A copy of the current logger's configuration: the top scoped
    /// override's, else the default logger's, lazily initializing a default
    /// logger (whose configuration is the default one) when none is current.
    /// Reading the configuration changes no logger.
    pub fn config(&mut self) -> (r: Result<LoggerConfig, LoggerError>)
        ensures
            r is Ok,
            spec_has_current(*old(self)) ==> *final(self) == *old(self) && (r matches Ok(c)
                && spec_config_eq(c, spec_current(*old(self)).config)),
            !spec_has_current(*old(self)) ==> {
                &&& final(self).scoped@.len() == 0
                &&& (final(self).default matches Some(l) && spec_config_default(l.config) && (
                r matches Ok(c) && spec_config_eq(c, l.config)))
            },
    {
        let n = self.scoped.len();
        if n > 0 {
            proof {
                assert(self.scoped@.last() == self.scoped@[n - 1]);
            }
            Ok(self.scoped[n - 1].config())
        } else {
            let mut local = Effects::new();
            self.ensure_default(&mut local);
            match &self.default {
                Some(l) => Ok(l.config()),
                None => Err(LoggerError::NotInitialized),
            }
        }
    }

    /// A read-only snapshot of the current logger's statistics: the top
    /// scoped override's, else the default logger's, lazily initializing a
    /// default logger (whose statistics are fresh) when none is current.
    /// Taking the snapshot changes no logger.
    pub fn stats(&mut self) -> (r: Result<LoggerStats, LoggerError>)
        ensures
            r is Ok,
            spec_has_current(*old(self)) ==> *final(self) == *old(self) && (r matches Ok(s) && s
                == spec_current(*old(self)).stats),
            !spec_has_current(*old(self)) ==> {
                &&& final(self).scoped@.len() == 0
                &&& (final(self).default matches Some(l) && spec_config_default(l.config) && (
                r matches Ok(s) && s == l.stats) && (exists|now: u64|
                    #![trigger spec_fresh_stats(now)]
                    l.stats == spec_fresh_stats(now)))
            },
    {
        let n = self.scoped.len();
        if n > 0 {
            proof {
                assert(self.scoped@.last() == self.scoped@[n - 1]);
            }
            Ok(self.scoped[n - 1].stats())
        } else {
            let mut local = Effects::new();
            self.ensure_default(&mut local);
            match &self.default {
                Some(l) => Ok(l.stats()),
                None => Err(LoggerError::NotInitialized),
            }
        }
    }
}

} // verus!
