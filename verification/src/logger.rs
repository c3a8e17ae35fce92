//! The dispatcher: the per-configuration engine that filters records against
//! the global and per-module thresholds, stamps and enriches them, tracks
//! statistics, and delivers them to the writer graph — at once in synchronous
//! mode, or through a bounded queue that a drain empties in arrival order in
//! asynchronous mode.

use crate::config::{spec_config_eq, spec_config_valid, LoggerConfig};
use crate::error::LoggerError;
use crate::format::{create_formatter, spec_rendered, FormatterKind};
use crate::kv::spec_extend;
use crate::level::LogLevel;
use crate::record::{CallerInfo, CallerView, LogRecord, RecordView, ThreadInfo, ThreadView};
use crate::time::{calendar_stamp, now_millis, CalendarStamp};
use crate::writer::{
    file_wf, multi_console_upto, multi_flush_upto, multi_ops_upto, sink_wf, sink_write_rel,
    ConsoleWriter, Effects, EffectsView, FileWriter, MultiWriter, SinkWriter,
};
use vstd::prelude::*;
use vstd::string::StringExecFns;

verus! {

/// One counter per level.
#[derive(Debug, Clone, Copy, PartialEq, Eq, Structural)]
pub struct LevelCounts {
    pub error: u64,
    pub warning: u64,
    pub info: u64,
    pub success: u64,
    pub debug: u64,
}

impl LevelCounts {
    /// All counters zero.
    pub fn new() -> (r: LevelCounts)
        ensures
            r == (LevelCounts { error: 0, warning: 0, info: 0, success: 0, debug: 0 }),
    {
        LevelCounts { error: 0, warning: 0, info: 0, success: 0, debug: 0 }
    }

    /// The counter for `level`.
    pub open spec fn spec_get(self, level: LogLevel) -> u64 {
        match level {
            LogLevel::Error => self.error,
            LogLevel::Warning => self.warning,
            LogLevel::Info => self.info,
            LogLevel::Success => self.success,
            LogLevel::Debug => self.debug,
        }
    }

    /// The counter for `level`.
    pub fn get(&self, level: LogLevel) -> (r: u64)
        ensures
            r == self.spec_get(level),
    {
        match level {
            LogLevel::Error => self.error,
            LogLevel::Warning => self.warning,
            LogLevel::Info => self.info,
            LogLevel::Success => self.success,
            LogLevel::Debug => self.debug,
        }
    }
}

/// `counts` with the counter for `level` grown by one, saturating.
pub open spec fn spec_bumped_counts(counts: LevelCounts, level: LogLevel) -> LevelCounts {
    match level {
        LogLevel::Error => LevelCounts { error: counts.error.saturating_add(1), ..counts },
        LogLevel::Warning => LevelCounts { warning: counts.warning.saturating_add(1), ..counts },
        LogLevel::Info => LevelCounts { info: counts.info.saturating_add(1), ..counts },
        LogLevel::Success => LevelCounts { success: counts.success.saturating_add(1), ..counts },
        LogLevel::Debug => LevelCounts { debug: counts.debug.saturating_add(1), ..counts },
    }
}

/// Logger statistics: total and per-level record counts, the start time, and
/// the number of errors met while logging.
#[derive(Debug, Clone, Copy, PartialEq, Eq, Structural)]
pub struct LoggerStats {
    /// Total number of records accepted (not filtered out).
    pub total_messages: u64,
    /// Accepted records by level.
    pub messages_by_level: LevelCounts,
    /// Milliseconds since the Unix epoch at which counting started.
    pub start_time: Option<u64>,
    /// Number of errors met while logging.
    pub error_count: u64,
}

impl LoggerStats {
    /// Fresh statistics starting at `now`.
    pub fn fresh(now: u64) -> (r: LoggerStats)
        ensures
            r == spec_fresh_stats(now),
    {
        LoggerStats {
            total_messages: 0,
            messages_by_level: LevelCounts::new(),
            start_time: Some(now),
            error_count: 0,
        }
    }
}

/// Fresh statistics starting at `now`.
pub open spec fn spec_fresh_stats(now: u64) -> LoggerStats {
    LoggerStats {
        total_messages: 0,
        messages_by_level: LevelCounts { error: 0, warning: 0, info: 0, success: 0, debug: 0 },
        start_time: Some(now),
        error_count: 0,
    }
}

/// `stats` after accepting one record at `level`: the total and the level's
/// counter grow by one, saturating.
pub open spec fn spec_bumped_stats(stats: LoggerStats, level: LogLevel) -> LoggerStats {
    LoggerStats {
        total_messages: stats.total_messages.saturating_add(1),
        messages_by_level: spec_bumped_counts(stats.messages_by_level, level),
        ..stats
    }
}

/// The bounded queue of records awaiting asynchronous delivery.
pub struct PendingQueue {
    /// The queue's capacity; an arrival beyond it is rejected.
    pub capacity: usize,
    /// The queued records, in arrival order.
    pub items: Vec<LogRecord>,
}

/// The records of a queue, in arrival order.
pub open spec fn queue_view(q: PendingQueue) -> Seq<RecordView> {
    q.items@.map(|_i: int, r: LogRecord| r@)
}

/// The record the dispatcher builds for one call: message and level as given,
/// stamped `now`, the module and caller as given, the thread only when the
/// configuration asks for it, and the global metadata merged over the (empty)
/// per-record metadata.
pub open spec fn spec_event_record(
    c: LoggerConfig,
    level: LogLevel,
    message: Seq<char>,
    caller: Option<CallerView>,
    module: Option<Seq<char>>,
    thread: Option<ThreadView>,
    now: u64,
) -> RecordView {
    RecordView {
        level,
        message,
        timestamp: now,
        module,
        caller,
        thread: if c.include_thread {
            thread
        } else {
            None
        },
        metadata: spec_extend(Seq::<(Seq<char>, Seq<char>)>::empty(), c.metadata@),
    }
}

/// Whether a record at `level` tagged `module` passes the configuration's
/// thresholds.
pub open spec fn spec_passes_filter(
    c: LoggerConfig,
    level: LogLevel,
    module: Option<Seq<char>>,
) -> bool {
    match module {
        Some(m) => level.spec_passes(
            crate::config::spec_effective_level(c.module_filters@, c.level, m),
        ),
        None => level.spec_passes(c.level),
    }
}

/// Whether `line` is a rendering of `rec` under the dispatcher formatter of
/// `c`, for some timestamp text.
pub open spec fn spec_is_rendering(c: LoggerConfig, rec: RecordView, line: Seq<char>) -> bool {
    exists|ts: Seq<char>|
        line == spec_rendered(c.format, c.console.colors, c.include_caller, c.include_thread, rec, ts)
}

/// The relation between a sink before and after a drain delivered the records
/// `recs` through it: a console sink's state is untouched; a file sink gets
/// exactly one line per record, in order, each a rendering of its record, and
/// keeps its configuration and invariant.
pub open spec fn sink_drained_rel(
    w0: SinkWriter,
    w1: SinkWriter,
    recs: Seq<RecordView>,
    c: LoggerConfig,
) -> bool {
    match w0 {
        SinkWriter::Console(_) => w1 == w0,
        SinkWriter::File(f0) => match w1 {
            SinkWriter::File(f1) => {
                &&& f1.config == f0.config
                &&& f1.formatter == f0.formatter
                &&& exists|ls: Seq<Seq<char>>|
                    #![auto]
                    f1.written@ == f0.written@ + ls && ls.len() == recs.len() && (forall|i: int|
                        0 <= i < recs.len() ==> spec_is_rendering(c, recs[i], ls[i]))
                &&& (file_wf(f0) ==> file_wf(f1))
            },
            _ => false,
        },
    }
}

/// `a` is a prefix of `b`.
pub open spec fn is_prefix_of<T>(a: Seq<T>, b: Seq<T>) -> bool {
    a.len() <= b.len() && a == b.subrange(0, a.len() as int)
}

/// Everything one flush promises: the configuration and statistics are
/// untouched and the queue is left empty. With nothing queued, no writer
/// changes, no console line is added, and exactly the sinks' flush
/// operations are appended — so a second flush in a row writes nothing.
/// With records queued, every sink receives them in arrival order (see
/// [`sink_drained_rel`]) and the journal only grows.
pub open spec fn spec_flush_outcome(
    l0: LoggerInstance,
    l1: LoggerInstance,
    fx0: EffectsView,
    fx1: EffectsView,
) -> bool {
    &&& l1.config == l0.config
    &&& l1.stats == l0.stats
    &&& queue_emptied(l0.queue, l1.queue)
    &&& (spec_queue_empty(l0) ==> l1.writer.writers@ == l0.writer.writers@ && fx1.console
        == fx0.console && fx1.file_ops == fx0.file_ops + multi_flush_upto(
        l0.writer.writers@,
        l0.writer.writers@.len() as int,
    ))
    &&& (match l0.queue {
        Some(q) => {
            &&& l1.writer.writers@.len() == l0.writer.writers@.len()
            &&& (forall|i: int|
                0 <= i < l0.writer.writers@.len() ==> sink_drained_rel(
                    #[trigger] l0.writer.writers@[i],
                    l1.writer.writers@[i],
                    queue_view(q),
                    l0.config,
                ))
            &&& is_prefix_of(fx0.console, fx1.console)
            &&& is_prefix_of(fx0.file_ops, fx1.file_ops)
        },
        None => l1.writer.writers@ == l0.writer.writers@,
    })
}

/// The queue after a drain: absent in synchronous mode, present and empty
/// with its capacity kept in asynchronous mode.
pub open spec fn queue_emptied(q0: Option<PendingQueue>, q1: Option<PendingQueue>) -> bool {
    match q0 {
        None => q1 is None,
        Some(q) => q1 matches Some(qq) && qq.capacity == q.capacity && queue_view(qq).len() == 0,
    }
}

/// Whether the dispatcher has nothing queued (trivially true in synchronous
/// mode).
pub open spec fn spec_queue_empty(l: LoggerInstance) -> bool {
    match l.queue {
        Some(q) => queue_view(q).len() == 0,
        None => true,
    }
}

/// The dispatcher: owns a configuration, the writer graph, the statistics,
/// and — in asynchronous mode — the bounded queue of pending records.
pub struct LoggerInstance {
    /// The configuration the dispatcher was built from.
    pub config: LoggerConfig,
    /// The writer graph: console and file sinks in delivery order.
    pub writer: MultiWriter,
    /// The pending queue; present exactly in asynchronous mode.
    pub queue: Option<PendingQueue>,
    /// Running statistics.
    pub stats: LoggerStats,
}

/// The per-level counters of `counts`, summed without saturation.
pub open spec fn spec_counts_sum(c: LevelCounts) -> nat {
    c.error as nat + c.warning as nat + c.info as nat + c.success as nat + c.debug as nat
}

/// The statistics invariant: the total equals the sum of the per-level
/// counters, both saturating at `u64::MAX`.
pub open spec fn spec_stats_wf(s: LoggerStats) -> bool {
    s.total_messages as nat == (if spec_counts_sum(s.messages_by_level) > u64::MAX as nat {
        u64::MAX as nat
    } else {
        spec_counts_sum(s.messages_by_level)
    })
}

/// Accepting one record keeps the statistics invariant.
pub proof fn lemma_bump_preserves_stats_wf(s: LoggerStats, level: LogLevel)
    requires
        spec_stats_wf(s),
    ensures
        spec_stats_wf(spec_bumped_stats(s, level)),
{
}

/// The dispatcher's invariant: the queue exists exactly in asynchronous mode
/// and keeps its configured capacity, every file sink's model is well formed,
/// and the statistics are consistent.
pub open spec fn instance_wf(l: LoggerInstance) -> bool {
    &&& (l.queue is Some <==> l.config.async_enabled)
    &&& (l.queue matches Some(q) ==> q.capacity == l.config.async_buffer_size)
    &&& (forall|i: int| 0 <= i < l.writer.writers@.len() ==> sink_wf(#[trigger] l.writer.writers@[i]))
    &&& spec_stats_wf(l.stats)
}

/// The writer graph a freshly configured dispatcher has: a console sink when
/// console output is enabled, then a file sink when file output is enabled,
/// each holding a formatter built from the configuration (the file sink's
/// without colors) and the file sink starting on a fresh model.
pub open spec fn spec_graph_of(ws: Seq<SinkWriter>, c: LoggerConfig, now: u64) -> bool {
    &&& ws.len() == (if c.console_enabled {
        1int
    } else {
        0int
    }) + (if c.file_enabled {
        1int
    } else {
        0int
    })
    &&& (c.console_enabled ==> (ws[0] matches SinkWriter::Console(cw) && {
        &&& cw.use_stderr == c.console.use_stderr
        &&& spec_formatter_built(cw.formatter, c, c.console.colors)
    }))
    &&& (c.file_enabled ==> (ws[ws.len() - 1] matches SinkWriter::File(f) && {
        &&& crate::config::spec_file_eq(f.config, c.file)
        &&& spec_formatter_built(f.formatter, c, false)
        &&& f.current_size == 0
        &&& f.last_rotation_check == now
        &&& f.last_size_suffix == 0
        &&& f.active_lines@.len() == 0
        &&& f.active_stamp is None
        &&& f.backups@.len() == 0
        &&& f.written@ == Seq::<Seq<char>>::empty()
    }))
}

/// The writer graph a fresh dispatcher has (see [`spec_graph_of`]).
pub open spec fn spec_graph_built(l: LoggerInstance, now: u64) -> bool {
    spec_graph_of(l.writer.writers@, l.config, now)
}

/// The file operations building a writer graph emits: the open of the log
/// file (append or truncate per the configuration) when file output is
/// enabled, and nothing otherwise.
pub open spec fn spec_open_ops(c: LoggerConfig) -> Seq<crate::writer::FileOpView> {
    if c.file_enabled {
        seq![
            crate::writer::FileOpView::Open {
                path: c.file.path@,
                append: c.file.append,
                buffer: c.file.buffer_size,
            },
        ]
    } else {
        Seq::<crate::writer::FileOpView>::empty()
    }
}

/// Whether `fk` is the formatter that `create_formatter` builds from the
/// configuration with the given color choice (module information always on).
pub open spec fn spec_formatter_built(fk: FormatterKind, c: LoggerConfig, colors: bool) -> bool {
    match c.format {
        crate::config::OutputFormat::Text => fk matches FormatterKind::Text(t) && t.colors == colors
            && t.datetime_format@ == c.datetime_format@ && t.include_caller == c.include_caller
            && t.include_thread == c.include_thread && t.include_module,
        crate::config::OutputFormat::Json => fk matches FormatterKind::Json(j) && !j.pretty
            && j.datetime_format@ == c.datetime_format@ && j.include_caller == c.include_caller
            && j.include_thread == c.include_thread && j.include_module,
        crate::config::OutputFormat::Plain => fk matches FormatterKind::Plain(p)
            && p.datetime_format@ == c.datetime_format@ && p.include_caller == c.include_caller
            && p.include_thread == c.include_thread && p.include_module,
    }
}

/// Everything one call of `log_event` promises, relating the dispatcher and
/// the effects before and after the call. A filtered record leaves everything
/// untouched and succeeds silently. An accepted record bumps the statistics
/// and is then either queued (asynchronous mode: rejected with a `Channel`
/// error when the queue is full, which also bumps the error counter) or
/// delivered at once to every sink, rendered around some timestamp text.
pub open spec fn spec_log_outcome(
    l0: LoggerInstance,
    l1: LoggerInstance,
    fx0: EffectsView,
    fx1: EffectsView,
    level: LogLevel,
    message: Seq<char>,
    caller: Option<CallerView>,
    module: Option<Seq<char>>,
    thread: Option<ThreadView>,
    now: u64,
    stamp: CalendarStamp,
    r: Result<(), LoggerError>,
) -> bool {
    let rec = spec_event_record(l0.config, level, message, caller, module, thread, now);
    if !spec_passes_filter(l0.config, level, module) {
        l1 == l0 && fx1 == fx0 && r is Ok
    } else {
        let bumped = spec_bumped_stats(l0.stats, level);
        l1.config == l0.config && (match l0.queue {
            Some(q) => {
                &&& fx1 == fx0
                &&& l1.writer == l0.writer
                &&& (if q.items@.len() < q.capacity {
                    &&& r is Ok
                    &&& l1.stats == bumped
                    &&& (l1.queue matches Some(q1) && q1.capacity == q.capacity && queue_view(q1)
                        == queue_view(q).push(rec))
                } else {
                    &&& r matches Err(LoggerError::Channel(_))
                    &&& l1.stats == (LoggerStats {
                        error_count: bumped.error_count.saturating_add(1),
                        ..bumped
                    })
                    &&& (l1.queue matches Some(q1) && q1.capacity == q.capacity && queue_view(q1)
                        == queue_view(q))
                })
            },
            None => {
                &&& r is Ok
                &&& l1.stats == bumped
                &&& l1.queue is None
                &&& l1.writer.writers@.len() == l0.writer.writers@.len()
                &&& exists|ts: Seq<char>|
                    #![trigger multi_console_upto(
                        l0.writer.writers@,
                        rec,
                        ts,
                        l0.writer.writers@.len() as int,
                    )]
                    {
                        let line = spec_rendered(
                            l0.config.format,
                            l0.config.console.colors,
                            l0.config.include_caller,
                            l0.config.include_thread,
                            rec,
                            ts,
                        );
                        &&& (forall|i: int|
                            0 <= i < l0.writer.writers@.len() ==> sink_write_rel(
                                #[trigger] l0.writer.writers@[i],
                                l1.writer.writers@[i],
                                line,
                                now,
                                stamp,
                            ))
                        &&& fx1.console == fx0.console + multi_console_upto(
                            l0.writer.writers@,
                            rec,
                            ts,
                            l0.writer.writers@.len() as int,
                        )
                        &&& fx1.file_ops == fx0.file_ops + multi_ops_upto(
                            l0.writer.writers@,
                            line,
                            now,
                            stamp,
                            l0.writer.writers@.len() as int,
                        )
                    }
            },
        })
    }
}

/// Builds the writer graph for a configuration: a console sink when console
/// output is enabled, then a file sink on a fresh model when file output is
/// enabled, emitting the open of the log file.
fn build_writers(config: &LoggerConfig, now: u64, fx: &mut Effects) -> (w: MultiWriter)
    ensures
        spec_graph_of(w.writers@, *config, now),
        forall|i: int| 0 <= i < w.writers@.len() ==> sink_wf(#[trigger] w.writers@[i]),
        final(fx)@.console == old(fx)@.console,
        final(fx)@.file_ops == old(fx)@.file_ops + spec_open_ops(*config),
{
    let mut writer = MultiWriter::new();
    if config.console_enabled {
        let formatter = create_formatter(
            config.format,
            config.console.colors,
            config.datetime_format.as_str(),
            config.include_caller,
            config.include_thread,
            true,
        );
        let console = ConsoleWriter::new(config.console.use_stderr, formatter);
        writer = writer.add_writer(SinkWriter::Console(console));
    }
    if config.file_enabled {
        let formatter = create_formatter(
            config.format,
            false,
            config.datetime_format.as_str(),
            config.include_caller,
            config.include_thread,
            true,
        );
        let fw = FileWriter::new_at(config.file.clone(), formatter, now, 0, fx);
        writer = writer.add_writer(SinkWriter::File(fw));
    }
    proof {
        assert(fx@.file_ops =~= old(fx)@.file_ops + spec_open_ops(*config));
    }
    writer
}

impl LoggerInstance {
    /// Creates a dispatcher from a validated configuration, with `now` as the
    /// baseline for rotation checks and statistics. Fails with exactly the
    /// configuration's validation error, creating nothing.
    pub fn new_at(config: LoggerConfig, now: u64, fx: &mut Effects) -> (r: Result<
        LoggerInstance,
        LoggerError,
    >)
        ensures
            r is Ok <==> spec_config_valid(config),
            r matches Err(e) ==> (e matches LoggerError::Config(_)) && final(fx)@ == old(fx)@,
            r matches Ok(l) ==> {
                &&& spec_config_eq(l.config, config)
                &&& instance_wf(l)
                &&& spec_graph_built(l, now)
                &&& l.stats == spec_fresh_stats(now)
                &&& (l.queue matches Some(q) ==> queue_view(q).len() == 0)
                &&& final(fx)@.console == old(fx)@.console
                &&& final(fx)@.file_ops == old(fx)@.file_ops + spec_open_ops(config)
            },
    {
        match config.validate() {
            Err(e) => Err(e),
            Ok(()) => {
                let writer = build_writers(&config, now, fx);
                let queue = if config.async_enabled {
                    Some(PendingQueue { capacity: config.async_buffer_size, items: Vec::new() })
                } else {
                    None
                };
                let stats = LoggerStats::fresh(now);
                let l = LoggerInstance { config, writer, queue, stats };
                proof {
                    if l.config.async_enabled {
                        assert(queue_view(l.queue->Some_0) =~= Seq::<RecordView>::empty());
                    }
                }
                Ok(l)
            },
        }
    }

    /// Creates a dispatcher from a validated configuration, reading the clock
    /// for the baselines.
    pub fn new(config: LoggerConfig, fx: &mut Effects) -> (r: Result<LoggerInstance, LoggerError>)
        ensures
            r is Ok <==> spec_config_valid(config),
            r matches Err(e) ==> (e matches LoggerError::Config(_)) && final(fx)@ == old(fx)@,
            r matches Ok(l) ==> {
                &&& spec_config_eq(l.config, config)
                &&& instance_wf(l)
                &&& (exists|now: u64| spec_graph_built(l, now) && l.stats == spec_fresh_stats(now))
                &&& (l.queue matches Some(q) ==> queue_view(q).len() == 0)
                &&& final(fx)@.console == old(fx)@.console
                &&& final(fx)@.file_ops == old(fx)@.file_ops + spec_open_ops(config)
            },
    {
        let now = now_millis();
        let r = Self::new_at(config, now, fx);
        proof {
            if r is Ok {
                let l = r->Ok_0;
                assert(spec_graph_built(l, now) && l.stats == spec_fresh_stats(now));
            }
        }
        r
    }

    /// Logs one record, with every outside coordinate passed in: the clock
    /// reading `now` stamps the record and drives rotation, and `stamp` gives
    /// its calendar coordinates. See [`spec_log_outcome`] for the contract.
    #[verifier::rlimit(100)]
    pub fn log_event(
        &mut self,
        level: LogLevel,
        message: &str,
        caller: Option<CallerInfo>,
        module: Option<&str>,
        thread: Option<ThreadInfo>,
        now: u64,
        stamp: CalendarStamp,
        fx: &mut Effects,
    ) -> (r: Result<(), LoggerError>)
        ensures
            spec_log_outcome(
                *old(self),
                *final(self),
                old(fx)@,
                final(fx)@,
                level,
                message@,
                crate::record::opt_caller_view(caller),
                crate::record::opt_str_view(module),
                crate::record::opt_thread_view(thread),
                now,
                stamp,
                r,
            ),
            instance_wf(*old(self)) ==> instance_wf(*final(self)),
    {
        let ghost module_v: Option<Seq<char>> = match module {
            Some(m) => Some(m@),
            None => None,
        };
        let ghost caller_v: Option<CallerView> = match caller {
            Some(c) => Some(c@),
            None => None,
        };
        let ghost thread_v: Option<ThreadView> = match thread {
            Some(ref t) => Some(t@),
            None => None,
        };
        let effective = match module {
            Some(m) => self.config.effective_level(m),
            None => self.config.level,
        };
        if !level.passes(effective) {
            return Ok(());
        }
        let mut record = LogRecord::new(level, message, now);
        match module {
            Some(m) => {
                record = record.with_module(m);
            },
            None => {},
        }
        match caller {
            Some(c) => {
                record = record.with_caller(c);
            },
            None => {},
        }
        if self.config.include_thread {
            match thread {
                Some(t) => {
                    record = record.with_thread(t);
                },
                None => {},
            }
        }
        record = record.with_metadata_map(&self.config.metadata);
        let ghost rec = spec_event_record(
            self.config,
            level,
            message@,
            caller_v,
            module_v,
            thread_v,
            now,
        );
        proof {
            assert(record@ == rec);
        }
        self.stats.total_messages = self.stats.total_messages.saturating_add(1);
        self.bump_level_count(level);
        let is_async = self.queue.is_some();
        if is_async {
            match &mut self.queue {
                Some(q) => {
                    if q.items.len() < q.capacity {
                        let ghost qv = queue_view(*q);
                        q.items.push(record);
                        proof {
                            assert(queue_view(*q) =~= qv.push(rec));
                        }
                        Ok(())
                    } else {
                        self.stats.error_count = self.stats.error_count.saturating_add(1);
                        let mut m = String::new();
                        m.append("Failed to send message to async thread");
                        Err(LoggerError::Channel(m))
                    }
                },
                None => Ok(()),  // unreachable: the queue was just seen
            }
        } else {
            let ts = crate::time::render_local_time(now, self.config.datetime_format.as_str());
            let formatter = create_formatter(
                self.config.format,
                self.config.console.colors,
                self.config.datetime_format.as_str(),
                self.config.include_caller,
                self.config.include_thread,
                true,
            );
            let formatted = formatter.format_with_timestamp(&record, ts.as_str());
            proof {
                assert(formatted@ == spec_rendered(
                    self.config.format,
                    self.config.console.colors,
                    self.config.include_caller,
                    self.config.include_thread,
                    rec,
                    ts@,
                ));
            }
            let _ = self.writer.write_with_timestamp(
                &record,
                formatted.as_str(),
                ts.as_str(),
                now,
                stamp,
                fx,
            );
            Ok(())
        }
    }

    /// Delivers every queued record to the writer graph, in arrival order:
    /// the drain half of the flush-acknowledgement protocol, and what the
    /// background worker does in asynchronous mode. Delivery failures are
    /// swallowed, never surfaced, so the statistics are untouched. In
    /// synchronous mode there is no queue and nothing happens.
    pub fn drain_at(&mut self, now: u64, stamp: CalendarStamp, fx: &mut Effects)
        ensures
            final(self).config == old(self).config,
            final(self).stats == old(self).stats,
            old(self).queue is None ==> *final(self) == *old(self) && final(fx)@ == old(fx)@,
            old(self).queue matches Some(q) ==> {
                &&& (final(self).queue matches Some(q1) && q1.capacity == q.capacity
                    && queue_view(q1).len() == 0)
                &&& final(self).writer.writers@.len() == old(self).writer.writers@.len()
                &&& (forall|i: int|
                    0 <= i < old(self).writer.writers@.len() ==> sink_drained_rel(
                        #[trigger] old(self).writer.writers@[i],
                        final(self).writer.writers@[i],
                        queue_view(q),
                        old(self).config,
                    ))
                &&& is_prefix_of(old(fx)@.console, final(fx)@.console)
                &&& is_prefix_of(old(fx)@.file_ops, final(fx)@.file_ops)
                &&& (queue_view(q).len() == 0 ==> final(self).writer.writers@ == old(
                    self,
                ).writer.writers@ && final(fx)@ == old(fx)@)
            },
            instance_wf(*old(self)) ==> instance_wf(*final(self)),
    {
        if self.queue.is_none() {
            return ;
        }
        let mut items: Vec<LogRecord> = Vec::new();
        match &mut self.queue {
            Some(q) => {
                core::mem::swap(&mut q.items, &mut items);
            },
            None => {},
        }
        let ghost recs = items@.map(|_i: int, r: LogRecord| r@);
        proof {
            assert(queue_view(old(self).queue->Some_0) == recs);
            assert(queue_view(self.queue->Some_0) =~= Seq::<RecordView>::empty());
        }
        let n = items.len();
        let mut i: usize = 0;
        let ghost w0 = self.writer.writers@;
        proof {
            assert(recs.subrange(0, 0) =~= Seq::<RecordView>::empty());
            assert(is_prefix_of(old(fx)@.console, fx@.console)) by {
                assert(old(fx)@.console =~= fx@.console.subrange(
                    0,
                    old(fx)@.console.len() as int,
                ));
            }
            assert(is_prefix_of(old(fx)@.file_ops, fx@.file_ops)) by {
                assert(old(fx)@.file_ops =~= fx@.file_ops.subrange(
                    0,
                    old(fx)@.file_ops.len() as int,
                ));
            }
            assert forall|j: int| 0 <= j < w0.len() implies sink_drained_rel(
                #[trigger] w0[j],
                w0[j],
                recs.subrange(0, 0),
                self.config,
            ) by {
                match w0[j] {
                    SinkWriter::Console(_) => {},
                    SinkWriter::File(f) => {
                        let ls = Seq::<Seq<char>>::empty();
                        assert(f.written@ =~= f.written@ + ls);
                    },
                }
            }
        }
        while i < n
            invariant
                i <= n,
                n == items@.len(),
                n == recs.len(),
                recs == items@.map(|_i: int, r: LogRecord| r@),
                self.config == old(self).config,
                self.stats == old(self).stats,
                queue_emptied(old(self).queue, self.queue),
                self.writer.writers@.len() == w0.len(),
                forall|j: int|
                    0 <= j < w0.len() ==> sink_drained_rel(
                        #[trigger] w0[j],
                        self.writer.writers@[j],
                        recs.subrange(0, i as int),
                        old(self).config,
                    ),
                is_prefix_of(old(fx)@.console, fx@.console),
                is_prefix_of(old(fx)@.file_ops, fx@.file_ops),
                i == 0 ==> self.writer.writers@ == w0 && fx@ == old(fx)@,
            decreases n - i,
        {
            let ghost mid = self.writer.writers@;
            let ghost fx_mid = fx@;
            let record = &items[i];
            let ts = crate::time::render_local_time(
                record.timestamp,
                self.config.datetime_format.as_str(),
            );
            let formatter = create_formatter(
                self.config.format,
                self.config.console.colors,
                self.config.datetime_format.as_str(),
                self.config.include_caller,
                self.config.include_thread,
                true,
            );
            let formatted = formatter.format_with_timestamp(record, ts.as_str());
            proof {
                assert(formatted@ == spec_rendered(
                    self.config.format,
                    self.config.console.colors,
                    self.config.include_caller,
                    self.config.include_thread,
                    record@,
                    ts@,
                ));
            }
            let _ = self.writer.write_with_timestamp(
                record,
                formatted.as_str(),
                ts.as_str(),
                now,
                stamp,
                fx,
            );
            proof {
                let line = formatted@;
                let cfg = old(self).config;
                assert(recs.subrange(0, i + 1) =~= recs.subrange(0, i as int).push(recs[i as int]));
                assert(recs[i as int] == record@);
                assert(spec_is_rendering(cfg, record@, line));
                assert forall|j: int| 0 <= j < w0.len() implies sink_drained_rel(
                    #[trigger] w0[j],
                    self.writer.writers@[j],
                    recs.subrange(0, i + 1),
                    cfg,
                ) by {
                    assert(sink_drained_rel(w0[j], mid[j], recs.subrange(0, i as int), cfg));
                    assert(sink_write_rel(mid[j], self.writer.writers@[j], line, now, stamp));
                    match w0[j] {
                        SinkWriter::Console(_) => {},
                        SinkWriter::File(f0) => {
                            let fm = mid[j]->File_0;
                            let f1 = self.writer.writers@[j]->File_0;
                            let ls = choose|ls: Seq<Seq<char>>|
                                #![auto]
                                fm.written@ == f0.written@ + ls && ls.len() == recs.subrange(
                                    0,
                                    i as int,
                                ).len() && (forall|k: int|
                                    0 <= k < recs.subrange(0, i as int).len()
                                        ==> spec_is_rendering(
                                        cfg,
                                        recs.subrange(0, i as int)[k],
                                        ls[k],
                                    ));
                            let ls1 = ls.push(line);
                            assert(f1.written@ =~= f0.written@ + ls1);
                            assert forall|k: int| 0 <= k < recs.subrange(0, i + 1).len()
                                implies spec_is_rendering(
                                cfg,
                                recs.subrange(0, i + 1)[k],
                                ls1[k],
                            ) by {
                                if k < i as int {
                                    assert(recs.subrange(0, i + 1)[k] == recs.subrange(
                                        0,
                                        i as int,
                                    )[k]);
                                    assert(ls1[k] == ls[k]);
                                }
                            }
                        },
                    }
                }
                assert(is_prefix_of(fx_mid.console, fx@.console)) by {
                    assert(fx_mid.console =~= fx@.console.subrange(
                        0,
                        fx_mid.console.len() as int,
                    ));
                }
                assert(is_prefix_of(fx_mid.file_ops, fx@.file_ops)) by {
                    assert(fx_mid.file_ops =~= fx@.file_ops.subrange(
                        0,
                        fx_mid.file_ops.len() as int,
                    ));
                }
                assert(is_prefix_of(old(fx)@.console, fx@.console)) by {
                    assert(old(fx)@.console =~= fx@.console.subrange(
                        0,
                        old(fx)@.console.len() as int,
                    ));
                }
                assert(is_prefix_of(old(fx)@.file_ops, fx@.file_ops)) by {
                    assert(old(fx)@.file_ops =~= fx@.file_ops.subrange(
                        0,
                        old(fx)@.file_ops.len() as int,
                    ));
                }
            }
            i += 1;
        }
        proof {
            assert(recs.subrange(0, n as int) =~= recs);
            if instance_wf(*old(self)) {
                assert forall|j: int| 0 <= j < self.writer.writers@.len() implies sink_wf(
                    #[trigger] self.writer.writers@[j],
                ) by {
                    assert(sink_drained_rel(w0[j], self.writer.writers@[j], recs, old(self).config));
                    assert(sink_wf(w0[j]));
                    match w0[j] {
                        SinkWriter::Console(_) => {},
                        SinkWriter::File(_) => {},
                    }
                }
            }
        }
    }

    /// Flushes the dispatcher: in asynchronous mode first drains every queued
    /// record (the flush acknowledgement), then flushes every sink. Flushing
    /// twice in a row is idempotent: the first flush leaves the queue empty,
    /// so the second delivers nothing, changes no writer, and emits only
    /// flush operations.
    pub fn flush_at(&mut self, now: u64, stamp: CalendarStamp, fx: &mut Effects) -> (r: Result<
        (),
        LoggerError,
    >)
        ensures
            r is Ok,
            spec_flush_outcome(*old(self), *final(self), old(fx)@, final(fx)@),
            instance_wf(*old(self)) ==> instance_wf(*final(self)),
    {
        self.drain_at(now, stamp, fx);
        let ghost mid_ops = fx@.file_ops;
        let r = self.writer.flush(fx);
        proof {
            if old(self).queue is Some {
                assert(is_prefix_of(mid_ops, fx@.file_ops)) by {
                    assert(mid_ops =~= fx@.file_ops.subrange(0, mid_ops.len() as int));
                }
                assert(is_prefix_of(old(fx)@.file_ops, fx@.file_ops)) by {
                    assert(old(fx)@.file_ops =~= fx@.file_ops.subrange(
                        0,
                        old(fx)@.file_ops.len() as int,
                    ));
                }
            }
        }
        r
    }

    /// Flushes the dispatcher, reading the clock for the drain; the flush
    /// outcome itself is clock-independent.
    pub fn flush(&mut self, fx: &mut Effects) -> (r: Result<(), LoggerError>)
        ensures
            r is Ok,
            spec_flush_outcome(*old(self), *final(self), old(fx)@, final(fx)@),
            instance_wf(*old(self)) ==> instance_wf(*final(self)),
    {
        let now = now_millis();
        let stamp = calendar_stamp(now);
        self.flush_at(now, stamp, fx)
    }

    /// Logs one record with caller information, reading the clock for the
    /// record's timestamp. Thread identity is outside the core's reach, so no
    /// thread information is attached here; a shell that has it calls
    /// [`LoggerInstance::log_event`].
    pub fn log_with_caller(
        &mut self,
        level: LogLevel,
        message: &str,
        caller: Option<CallerInfo>,
        module: Option<&str>,
        fx: &mut Effects,
    ) -> (r: Result<(), LoggerError>)
        ensures
            exists|now: u64, stamp: CalendarStamp|
                #![auto]
                spec_log_outcome(
                    *old(self),
                    *final(self),
                    old(fx)@,
                    final(fx)@,
                    level,
                    message@,
                    crate::record::opt_caller_view(caller),
                    crate::record::opt_str_view(module),
                    None,
                    now,
                    stamp,
                    r,
                ),
            instance_wf(*old(self)) ==> instance_wf(*final(self)),
    {
        let now = now_millis();
        let stamp = calendar_stamp(now);
        self.log_event(level, message, caller, module, None, now, stamp, fx)
    }

    /// Logs a message without caller information.
    pub fn log(&mut self, level: LogLevel, message: &str, fx: &mut Effects) -> (r: Result<
        (),
        LoggerError,
    >)
        ensures
            exists|now: u64, stamp: CalendarStamp|
                #![auto]
                spec_log_outcome(
                    *old(self),
                    *final(self),
                    old(fx)@,
                    final(fx)@,
                    level,
                    message@,
                    None,
                    None,
                    None,
                    now,
                    stamp,
                    r,
                ),
            instance_wf(*old(self)) ==> instance_wf(*final(self)),
    {
        self.log_with_caller(level, message, None, None, fx)
    }

    /// Logs an error message.
    pub fn error(&mut self, message: &str, fx: &mut Effects) -> (r: Result<(), LoggerError>)
        ensures
            exists|now: u64, stamp: CalendarStamp|
                #![auto]
                spec_log_outcome(
                    *old(self),
                    *final(self),
                    old(fx)@,
                    final(fx)@,
                    LogLevel::Error,
                    message@,
                    None,
                    None,
                    None,
                    now,
                    stamp,
                    r,
                ),
            instance_wf(*old(self)) ==> instance_wf(*final(self)),
    {
        self.log(LogLevel::Error, message, fx)
    }

    /// Logs a warning message.
    pub fn warning(&mut self, message: &str, fx: &mut Effects) -> (r: Result<(), LoggerError>)
        ensures
            exists|now: u64, stamp: CalendarStamp|
                #![auto]
                spec_log_outcome(
                    *old(self),
                    *final(self),
                    old(fx)@,
                    final(fx)@,
                    LogLevel::Warning,
                    message@,
                    None,
                    None,
                    None,
                    now,
                    stamp,
                    r,
                ),
            instance_wf(*old(self)) ==> instance_wf(*final(self)),
    {
        self.log(LogLevel::Warning, message, fx)
    }

    /// Logs an info message.
    pub fn info(&mut self, message: &str, fx: &mut Effects) -> (r: Result<(), LoggerError>)
        ensures
            exists|now: u64, stamp: CalendarStamp|
                #![auto]
                spec_log_outcome(
                    *old(self),
                    *final(self),
                    old(fx)@,
                    final(fx)@,
                    LogLevel::Info,
                    message@,
                    None,
                    None,
                    None,
                    now,
                    stamp,
                    r,
                ),
            instance_wf(*old(self)) ==> instance_wf(*final(self)),
    {
        self.log(LogLevel::Info, message, fx)
    }

    /// Logs a success message.
    pub fn success(&mut self, message: &str, fx: &mut Effects) -> (r: Result<(), LoggerError>)
        ensures
            exists|now: u64, stamp: CalendarStamp|
                #![auto]
                spec_log_outcome(
                    *old(self),
                    *final(self),
                    old(fx)@,
                    final(fx)@,
                    LogLevel::Success,
                    message@,
                    None,
                    None,
                    None,
                    now,
                    stamp,
                    r,
                ),
            instance_wf(*old(self)) ==> instance_wf(*final(self)),
    {
        self.log(LogLevel::Success, message, fx)
    }

    /// Logs a debug message.
    pub fn debug(&mut self, message: &str, fx: &mut Effects) -> (r: Result<(), LoggerError>)
        ensures
            exists|now: u64, stamp: CalendarStamp|
                #![auto]
                spec_log_outcome(
                    *old(self),
                    *final(self),
                    old(fx)@,
                    final(fx)@,
                    LogLevel::Debug,
                    message@,
                    None,
                    None,
                    None,
                    now,
                    stamp,
                    r,
                ),
            instance_wf(*old(self)) ==> instance_wf(*final(self)),
    {
        self.log(LogLevel::Debug, message, fx)
    }

    /// A snapshot of the running statistics.
    pub fn stats(&self) -> (r: LoggerStats)
        ensures
            r == self.stats,
    {
        self.stats
    }

    /// Replaces the statistics with fresh ones starting at `now`.
    pub fn reset_stats_at(&mut self, now: u64)
        ensures
            *final(self) == (LoggerInstance { stats: spec_fresh_stats(now), ..*old(self) }),
    {
        self.stats = LoggerStats::fresh(now);
    }

    /// Replaces the statistics with fresh ones starting now.
    pub fn reset_stats(&mut self)
        ensures
            exists|now: u64|
                #![trigger spec_fresh_stats(now)]
                *final(self) == (LoggerInstance { stats: spec_fresh_stats(now), ..*old(self) }),
    {
        let now = now_millis();
        self.reset_stats_at(now);
    }

    /// A copy of the current configuration.
    pub fn config(&self) -> (r: LoggerConfig)
        ensures
            spec_config_eq(r, self.config),
    {
        self.config.clone()
    }

    /// Replaces the configuration after validating it; on failure nothing
    /// changes. Reconfiguration recreates the writers rather than mutating
    /// them in place: the old graph is drained and flushed first, then a
    /// fresh graph (and, in asynchronous mode, a fresh empty queue) is built
    /// from the new configuration, opening its log file. Statistics carry
    /// over.
    pub fn update_config_at(
        &mut self,
        new_config: LoggerConfig,
        now: u64,
        stamp: CalendarStamp,
        fx: &mut Effects,
    ) -> (r: Result<(), LoggerError>)
        ensures
            r is Ok <==> spec_config_valid(new_config),
            r matches Err(e) ==> *final(self) == *old(self) && final(fx)@ == old(fx)@ && (
            e matches LoggerError::Config(_)),
            r matches Ok(()) ==> {
                &&& final(self).config == new_config
                &&& final(self).stats == old(self).stats
                &&& spec_graph_built(*final(self), now)
                &&& (final(self).queue is Some <==> new_config.async_enabled)
                &&& (final(self).queue matches Some(q) ==> q.capacity
                    == new_config.async_buffer_size && queue_view(q).len() == 0)
                &&& exists|mid: LoggerInstance, fxm: EffectsView|
                    #![trigger spec_flush_outcome(*old(self), mid, old(fx)@, fxm)]
                    {
                        &&& spec_flush_outcome(*old(self), mid, old(fx)@, fxm)
                        &&& final(fx)@.console == fxm.console
                        &&& final(fx)@.file_ops == fxm.file_ops + spec_open_ops(new_config)
                    }
            },
            instance_wf(*old(self)) ==> instance_wf(*final(self)),
    {
        match new_config.validate() {
            Ok(()) => {
                let _ = self.flush_at(now, stamp, fx);
                let ghost mid = *self;
                let ghost fxm = fx@;
                let writer = build_writers(&new_config, now, fx);
                let queue = if new_config.async_enabled {
                    Some(
                        PendingQueue { capacity: new_config.async_buffer_size, items: Vec::new() },
                    )
                } else {
                    None
                };
                self.writer = writer;
                self.queue = queue;
                self.config = new_config;
                proof {
                    if self.config.async_enabled {
                        assert(queue_view(self.queue->Some_0) =~= Seq::<RecordView>::empty());
                    }
                    assert(spec_flush_outcome(*old(self), mid, old(fx)@, fxm));
                }
                Ok(())
            },
            Err(e) => Err(e),
        }
    }

    /// Replaces the configuration after validating it, reading the clock for
    /// the drain and the fresh graph's baselines (see
    /// [`LoggerInstance::update_config_at`]).
    pub fn update_config(&mut self, new_config: LoggerConfig, fx: &mut Effects) -> (r: Result<
        (),
        LoggerError,
    >)
        ensures
            r is Ok <==> spec_config_valid(new_config),
            r matches Err(e) ==> *final(self) == *old(self) && final(fx)@ == old(fx)@ && (
            e matches LoggerError::Config(_)),
            r matches Ok(()) ==> {
                &&& final(self).config == new_config
                &&& final(self).stats == old(self).stats
                &&& (exists|now: u64| spec_graph_built(*final(self), now))
                &&& (final(self).queue is Some <==> new_config.async_enabled)
                &&& (final(self).queue matches Some(q) ==> q.capacity
                    == new_config.async_buffer_size && queue_view(q).len() == 0)
            },
            instance_wf(*old(self)) ==> instance_wf(*final(self)),
    {
        let now = now_millis();
        let stamp = calendar_stamp(now);
        let r = self.update_config_at(new_config, now, stamp, fx);
        proof {
            if r is Ok {
                assert(spec_graph_built(*self, now));
            }
        }
        r
    }

    /// Grows the per-level counter for `level` by one, saturating.
    fn bump_level_count(&mut self, level: LogLevel)
        ensures
            *final(self) == (LoggerInstance {
                stats: LoggerStats {
                    messages_by_level: spec_bumped_counts(
                        old(self).stats.messages_by_level,
                        level,
                    ),
                    ..old(self).stats
                },
                ..*old(self)
            }),
    {
        match level {
            LogLevel::Error => {
                self.stats.messages_by_level.error =
                self.stats.messages_by_level.error.saturating_add(1);
            },
            LogLevel::Warning => {
                self.stats.messages_by_level.warning =
                self.stats.messages_by_level.warning.saturating_add(1);
            },
            LogLevel::Info => {
                self.stats.messages_by_level.info =
                self.stats.messages_by_level.info.saturating_add(1);
            },
            LogLevel::Success => {
                self.stats.messages_by_level.success =
                self.stats.messages_by_level.success.saturating_add(1);
            },
            LogLevel::Debug => {
                self.stats.messages_by_level.debug =
                self.stats.messages_by_level.debug.saturating_add(1);
            },
        }
    }
}

} // verus!
