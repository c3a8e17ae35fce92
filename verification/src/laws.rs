//! Laws of the engine, stated and proved over the same specifications the
//! public contracts use.

use crate::config::LoggerConfig;
use crate::level::LogLevel;
use crate::logger::{spec_is_rendering, spec_log_outcome, spec_passes_filter, sink_drained_rel};
use crate::time::CalendarStamp;
use crate::writer::{
    file_wf, file_write_rel, is_suffix_of, multi_flush_upto, sink_flush_ops, spec_file_write_ops,
    spec_keep, spec_rotation_due, spec_surviving, FileOpView, FileWriter, SinkWriter,
};
use vstd::prelude::*;

verus! {

/// Threshold filtering: with the global threshold at `threshold`, a record at
/// a less severe level (greater rank) is filtered out, and a record at the
/// threshold or more severe passes. Together with [`spec_log_outcome`], a
/// filtered record leaves the dispatcher and the world untouched.
pub proof fn law_threshold_filtering(c: LoggerConfig, less_severe: LogLevel, threshold: LogLevel)
    requires
        c.level == threshold,
        less_severe.spec_rank() > threshold.spec_rank(),
    ensures
        !spec_passes_filter(c, less_severe, None),
        forall|l: LogLevel|
            l.spec_rank() <= threshold.spec_rank() ==> spec_passes_filter(c, l, None),
{
}

/// A filtered record is suppressed silently: whatever call produced the
/// outcome, the dispatcher, the queue, the writers and the world are exactly
/// as they were, and the call still succeeded.
pub proof fn law_filtered_is_silent(
    l0: crate::logger::LoggerInstance,
    l1: crate::logger::LoggerInstance,
    fx0: crate::writer::EffectsView,
    fx1: crate::writer::EffectsView,
    level: LogLevel,
    message: Seq<char>,
    module: Option<Seq<char>>,
    now: u64,
    stamp: CalendarStamp,
    r: Result<(), crate::error::LoggerError>,
)
    requires
        spec_log_outcome(l0, l1, fx0, fx1, level, message, None, module, None, now, stamp, r),
        !spec_passes_filter(l0.config, level, module),
    ensures
        l1 == l0,
        fx1 == fx0,
        r is Ok,
{
}

/// One write preserves the file writer's invariant and extends the history by
/// exactly the written line: rotation never loses, duplicates or reorders a
/// line it has promised to keep.
pub proof fn law_write_preserves_wf(
    f0: FileWriter,
    f1: FileWriter,
    line: Seq<char>,
    now: u64,
    stamp: CalendarStamp,
)
    requires
        file_wf(f0),
        file_write_rel(f0, f1, line, now, stamp),
    ensures
        file_wf(f1),
        f1.written@ == f0.written@.push(line),
{
}

/// Retention bound: a well-formed writer under a size- or time-based policy
/// that keeps `K > 0` backups has at most `K + 1` files on disk — the backups
/// and the active file.
pub proof fn law_retention_bound(w: FileWriter)
    requires
        file_wf(w),
        spec_keep(w.config.rotation) > 0,
    ensures
        w.backups@.len() + 1 <= spec_keep(w.config.rotation) + 1,
{
}

/// Round trip: on a well-formed writer the lines on disk, read through the
/// backups in rotation order and then the active file, are a suffix of the
/// lines ever written — every surviving line appears exactly once, in the
/// original order, and only the oldest lines are ever dropped. With retention
/// unlimited (`keep == 0`) or rotation off, every written line survives.
pub proof fn law_round_trip(w: FileWriter)
    requires
        file_wf(w),
    ensures
        is_suffix_of(spec_surviving(w), w.written@),
        spec_keep(w.config.rotation) == 0 ==> spec_surviving(w) == w.written@,
{
}

/// A flush of the writer graph emits only flush operations: no line reaches a
/// file or the console that was not already on its way. Together with the
/// dispatcher's flush contract — a flush leaves the queue empty, and flushing
/// with an empty queue changes no writer — flushing twice in succession
/// produces no additional writes and no error.
pub proof fn law_flush_emits_only_flushes(ws: Seq<SinkWriter>, n: int)
    requires
        0 <= n <= ws.len(),
    ensures
        forall|k: int|
            0 <= k < multi_flush_upto(ws, n).len() ==> multi_flush_upto(ws, n)[k] is Flush,
    decreases n,
{
    if n > 0 {
        law_flush_emits_only_flushes(ws, n - 1);
        assert forall|k: int| 0 <= k < multi_flush_upto(ws, n).len() implies multi_flush_upto(
            ws,
            n,
        )[k] is Flush by {
            let pre = multi_flush_upto(ws, n - 1);
            if k < pre.len() {
                assert(multi_flush_upto(ws, n)[k] == pre[k]);
            } else {
                match ws[n - 1] {
                    SinkWriter::Console(_) => {},
                    SinkWriter::File(f) => {
                        assert(sink_flush_ops(ws[n - 1])[0] is Flush);
                    },
                }
            }
        }
    }
}

/// Asynchronous delivery loses and duplicates nothing: a drain of `recs`
/// queued records extends a file sink's history by exactly one line per
/// record, in queue order, each line a rendering of its record.
pub proof fn law_drain_no_loss(
    w0: SinkWriter,
    w1: SinkWriter,
    recs: Seq<crate::record::RecordView>,
    c: LoggerConfig,
    f0: FileWriter,
    f1: FileWriter,
)
    requires
        sink_drained_rel(w0, w1, recs, c),
        w0 == SinkWriter::File(f0),
        w1 == SinkWriter::File(f1),
    ensures
        f1.written@.len() == f0.written@.len() + recs.len(),
        forall|i: int|
            0 <= i < f0.written@.len() ==> f1.written@[i] == f0.written@[i],
        forall|i: int|
            0 <= i < recs.len() ==> spec_is_rendering(
                c,
                recs[i],
                #[trigger] f1.written@[f0.written@.len() + i],
            ),
{
    let ls = choose|ls: Seq<Seq<char>>|
        #![auto]
        f1.written@ == f0.written@ + ls && ls.len() == recs.len() && (forall|i: int|
            0 <= i < recs.len() ==> spec_is_rendering(c, recs[i], ls[i]));
    assert forall|i: int| 0 <= i < recs.len() implies spec_is_rendering(
        c,
        recs[i],
        #[trigger] f1.written@[f0.written@.len() + i],
    ) by {
        assert(f1.written@[f0.written@.len() + i] == ls[i]);
    }
}

/// With rotation off and a zero flush interval, every write's bytes are
/// pushed to the world before the call returns: the write emits exactly the
/// appended line followed at once by a flush, and grows the size counter by
/// the line's byte cost.
pub proof fn law_immediate_durability(
    w: FileWriter,
    line: Seq<char>,
    now: u64,
    stamp: CalendarStamp,
)
    requires
        w.config.rotation is Disabled,
        w.config.flush_interval == 0,
    ensures
        !spec_rotation_due(w, now, stamp),
        spec_file_write_ops(w, line, now, stamp) =~= seq![
            FileOpView::AppendLine { path: w.config.path@, text: line },
            FileOpView::Flush { path: w.config.path@ },
        ],
{
}

/// Statistics are consistent: on any well-formed dispatcher the total count
/// equals the sum of the per-level counters (both saturating at `u64::MAX`),
/// and accepting one record keeps it so. A snapshot is read-only, so the
/// same holds of every snapshot taken.
pub proof fn law_stats_total_is_sum(l: crate::logger::LoggerInstance, level: LogLevel)
    requires
        crate::logger::instance_wf(l),
    ensures
        crate::logger::spec_stats_wf(l.stats),
        l.stats.total_messages as nat == (
        if crate::logger::spec_counts_sum(l.stats.messages_by_level) > u64::MAX as nat {
            u64::MAX as nat
        } else {
            crate::logger::spec_counts_sum(l.stats.messages_by_level)
        }),
        crate::logger::spec_stats_wf(crate::logger::spec_bumped_stats(l.stats, level)),
{
    crate::logger::lemma_bump_preserves_stats_wf(l.stats, level);
}

/// The metadata merge is deterministic and exact: merging a map with unique
/// keys into an empty per-record map yields exactly that map, entry for entry
/// and in order. A record's metadata is therefore the global metadata, with
/// per-record entries only where a call added them first.
pub proof fn law_metadata_merge_exact(m: Seq<(Seq<char>, Seq<char>)>)
    requires
        crate::kv::spec_keys_unique(m),
    ensures
        crate::kv::spec_extend(Seq::<(Seq<char>, Seq<char>)>::empty(), m) == m,
    decreases m.len(),
{
    let empty = Seq::<(Seq<char>, Seq<char>)>::empty();
    if m.len() == 0 {
        assert(m =~= empty);
    } else {
        let pre = m.drop_last();
        assert(forall|i: int| 0 <= i < pre.len() ==> pre[i] == m[i]);
        law_metadata_merge_exact(pre);
        crate::kv::lemma_find_key_bounds(pre, m.last().0);
        match crate::kv::spec_find_key(pre, m.last().0) {
            Some(i) => {
                assert(pre[i].0 == m.last().0);
                assert(m[i].0 == m[m.len() - 1].0);
                assert(false);
            },
            None => {
                assert(pre.push(m.last()) =~= m);
            },
        }
    }
}

} // verus!
