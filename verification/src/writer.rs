//! Writers: sinks that deliver a rendered record.
//!
//! Writers are pure: instead of touching the process's streams or the file
//! system they append their output to an [`Effects`] journal (console lines
//! and file operations) and keep an in-memory model of the files they manage.
//! A thin unverified shell replays the journal against the real world. The
//! file writer's model carries the rotation state machine: the active file's
//! lines and byte size, the backups in rotation order, and the full history
//! of written lines, so that retention and ordering can be stated and proved.

use crate::config::{FileConfig, RotationConfig, RotationFrequency};
use crate::error::LoggerError;
use crate::format::FormatterKind;
use crate::level::LogLevel;
use crate::record::LogRecord;
use crate::text::{find_last_char, spec_dec, spec_find_last, u64_to_dec};
use crate::time::CalendarStamp;
use vstd::prelude::*;
use vstd::string::StrSliceExecFns;
use vstd::string::StringExecFns;

verus! {

/// A console stream.
#[derive(Debug, Clone, Copy, PartialEq, Eq, Structural)]
pub enum Stream {
    /// Standard output.
    Stdout,
    /// Standard error.
    Stderr,
}

/// One line destined for a console stream.
#[derive(Debug)]
pub struct ConsoleLine {
    /// The stream the line goes to.
    pub stream: Stream,
    /// The text of the line, without the line terminator.
    pub text: String,
}

/// The mathematical value of a [`ConsoleLine`].
pub ghost struct ConsoleLineView {
    pub stream: Stream,
    pub text: Seq<char>,
}

impl View for ConsoleLine {
    type V = ConsoleLineView;

    open spec fn view(&self) -> ConsoleLineView {
        ConsoleLineView { stream: self.stream, text: self.text@ }
    }
}

/// One operation on the file system, to be replayed by the shell.
#[derive(Debug)]
pub enum FileOp {
    /// Open the file, creating it if needed, truncating it unless `append`,
    /// behind a write buffer of `buffer` bytes (0 for the default buffer).
    Open { path: String, append: bool, buffer: usize },
    /// Append `text` and a line terminator to the file.
    AppendLine { path: String, text: String },
    /// Flush buffered writes to the file.
    Flush { path: String },
    /// Rename a file.
    Rename { from: String, to: String },
    /// Remove a file.
    Remove { path: String },
}

/// The mathematical value of a [`FileOp`].
pub ghost enum FileOpView {
    Open { path: Seq<char>, append: bool, buffer: usize },
    AppendLine { path: Seq<char>, text: Seq<char> },
    Flush { path: Seq<char> },
    Rename { from: Seq<char>, to: Seq<char> },
    Remove { path: Seq<char> },
}

impl View for FileOp {
    type V = FileOpView;

    open spec fn view(&self) -> FileOpView {
        match self {
            FileOp::Open { path, append, buffer } => FileOpView::Open {
                path: path@,
                append: *append,
                buffer: *buffer,
            },
            FileOp::AppendLine { path, text } => FileOpView::AppendLine {
                path: path@,
                text: text@,
            },
            FileOp::Flush { path } => FileOpView::Flush { path: path@ },
            FileOp::Rename { from, to } => FileOpView::Rename { from: from@, to: to@ },
            FileOp::Remove { path } => FileOpView::Remove { path: path@ },
        }
    }
}

/// The output of a run of writer calls: console lines and file operations, in
/// the order they must reach the world.
#[derive(Debug)]
pub struct Effects {
    /// Lines for the console, in order.
    pub console: Vec<ConsoleLine>,
    /// Operations on the file system, in order.
    pub file_ops: Vec<FileOp>,
}

/// The mathematical value of an [`Effects`].
pub ghost struct EffectsView {
    pub console: Seq<ConsoleLineView>,
    pub file_ops: Seq<FileOpView>,
}

impl View for Effects {
    type V = EffectsView;

    open spec fn view(&self) -> EffectsView {
        EffectsView {
            console: self.console@.map(|_i: int, l: ConsoleLine| l@),
            file_ops: self.file_ops@.map(|_i: int, o: FileOp| o@),
        }
    }
}

impl Effects {
    /// Creates an empty journal.
    pub fn new() -> (r: Effects)
        ensures
            r@.console == Seq::<ConsoleLineView>::empty(),
            r@.file_ops == Seq::<FileOpView>::empty(),
    {
        let r = Effects { console: Vec::new(), file_ops: Vec::new() };
        proof {
            assert(r@.console =~= Seq::<ConsoleLineView>::empty());
            assert(r@.file_ops =~= Seq::<FileOpView>::empty());
        }
        r
    }

    fn push_op(&mut self, op: FileOp)
        ensures
            final(self)@.console == old(self)@.console,
            final(self)@.file_ops == old(self)@.file_ops.push(op@),
    {
        let ghost o = op@;
        self.file_ops.push(op);
        proof {
            assert(self@.file_ops =~= old(self)@.file_ops.push(o));
            assert(self@.console =~= old(self)@.console);
        }
    }

    fn push_line(&mut self, line: ConsoleLine)
        ensures
            final(self)@.file_ops == old(self)@.file_ops,
            final(self)@.console == old(self)@.console.push(line@),
    {
        let ghost l = line@;
        self.console.push(line);
        proof {
            assert(self@.console =~= old(self)@.console.push(l));
            assert(self@.file_ops =~= old(self)@.file_ops);
        }
    }
}

/// The view of a sequence of owned lines.
pub open spec fn lines_of(v: Seq<String>) -> Seq<Seq<char>> {
    v.map(|_i: int, s: String| s@)
}

/// One rotated-away backup file in the model: its name and its lines.
#[derive(Debug)]
pub struct BackupFile {
    /// The backup's path.
    pub name: String,
    /// The lines the backup holds.
    pub lines: Vec<String>,
}

/// The mathematical value of a [`BackupFile`].
pub ghost struct BackupView {
    pub name: Seq<char>,
    pub lines: Seq<Seq<char>>,
}

impl View for BackupFile {
    type V = BackupView;

    open spec fn view(&self) -> BackupView {
        BackupView { name: self.name@, lines: lines_of(self.lines@) }
    }
}

/// The lines of a run of backups, concatenated in rotation order.
pub open spec fn all_backup_lines(bs: Seq<BackupView>) -> Seq<Seq<char>>
    decreases bs.len(),
{
    if bs.len() == 0 {
        Seq::<Seq<char>>::empty()
    } else {
        bs[0].lines + all_backup_lines(bs.drop_first())
    }
}

/// `a` is a suffix of `b`.
pub open spec fn is_suffix_of<T>(a: Seq<T>, b: Seq<T>) -> bool {
    a.len() <= b.len() && a == b.subrange(b.len() - a.len(), b.len() as int)
}

/// The number of backups that retention keeps, with 0 meaning all of them.
pub open spec fn spec_keep(r: RotationConfig) -> nat {
    match r {
        RotationConfig::Disabled => 0,
        RotationConfig::Size { keep_files, .. } => keep_files as nat,
        RotationConfig::Time { keep_files, .. } => keep_files as nat,
    }
}

/// The backups that survive retention: with `keep == 0` all of them, else the
/// `keep` newest.
pub open spec fn spec_cleanup(bs: Seq<BackupView>, keep: nat) -> Seq<BackupView> {
    if keep == 0 || bs.len() <= keep {
        bs
    } else {
        bs.subrange(bs.len() - keep, bs.len() as int)
    }
}

/// File writer with rotation support. The writer models the directory it
/// manages: the active file's lines and byte count and the backups in
/// rotation order, plus the full history of lines ever written through it.
/// The model covers what this writer wrote: content and backups left by
/// earlier processes are outside it, except that the shell can seed the
/// opened file's byte length so size-based rotation fires on time.
pub struct FileWriter {
    /// Configuration for file output.
    pub config: FileConfig,
    /// Formatter owned by this writer. A file write appends the pre-rendered
    /// line it is handed, so the formatter is carried as configuration for
    /// callers that render per sink.
    pub formatter: FormatterKind,
    /// Byte size of the active file: the bytes written since it was opened.
    pub current_size: u64,
    /// Last time (milliseconds) a time-based rotation check ran.
    pub last_rotation_check: u64,
    /// The last numeric suffix given to a size-based backup, for uniqueness.
    pub last_size_suffix: u64,
    /// Lines of the active file, in write order.
    pub active_lines: Vec<String>,
    /// Calendar stamp of the last write to the active file; `None` until the
    /// first write after opening, so a fresh file never rotates by time.
    pub active_stamp: Option<CalendarStamp>,
    /// Rotated backups, oldest first.
    pub backups: Vec<BackupFile>,
    /// Every line ever written through this writer, in order.
    pub written: Ghost<Seq<Seq<char>>>,
}

/// The lines currently on disk in rotation order: the backups' lines, oldest
/// backup first, then the active file's lines.
pub open spec fn spec_surviving(w: FileWriter) -> Seq<Seq<char>> {
    all_backup_lines(w.backups@.map(|_i: int, b: BackupFile| b@)) + lines_of(w.active_lines@)
}

/// The file writer's invariant: retention bounds the number of backups, the
/// lines on disk are a suffix of the lines ever written (no duplication, no
/// reordering, loss only of the oldest), and with retention unlimited (or
/// rotation off) nothing is ever lost.
pub open spec fn file_wf(w: FileWriter) -> bool {
    &&& (w.config.rotation is Disabled ==> w.backups@.len() == 0)
    &&& (spec_keep(w.config.rotation) > 0 ==> w.backups@.len() <= spec_keep(w.config.rotation))
    &&& is_suffix_of(spec_surviving(w), w.written@)
    &&& (spec_keep(w.config.rotation) == 0 ==> spec_surviving(w) == w.written@)
}

/// Whether a write at `now` with calendar stamp `stamp` must rotate first.
pub open spec fn spec_rotation_due(w: FileWriter, now: u64, stamp: CalendarStamp) -> bool {
    match w.config.rotation {
        RotationConfig::Disabled => false,
        RotationConfig::Size { max_size, .. } => w.current_size >= max_size,
        RotationConfig::Time { frequency, .. } => now >= w.last_rotation_check
            + 60000 && (match w.active_stamp {
            Some(st) => spec_bucket_differs(frequency, st, stamp),
            None => false,
        }),
    }
}

/// Whether `a` and `b` fall in different calendar buckets for `freq`.
pub open spec fn spec_bucket_differs(
    freq: RotationFrequency,
    a: CalendarStamp,
    b: CalendarStamp,
) -> bool {
    match freq {
        RotationFrequency::Daily => a.year != b.year || a.month != b.month || a.day_of_month
            != b.day_of_month,
        RotationFrequency::Weekly => a.iso_year != b.iso_year || a.iso_week != b.iso_week,
        RotationFrequency::Monthly => a.year != b.year || a.month != b.month,
    }
}

/// Whether `a` and `b` fall in different calendar buckets for `freq`.
pub fn bucket_differs(freq: RotationFrequency, a: CalendarStamp, b: CalendarStamp) -> (r: bool)
    ensures
        r == spec_bucket_differs(freq, a, b),
{
    match freq {
        RotationFrequency::Daily => a.year != b.year || a.month != b.month || a.day_of_month
            != b.day_of_month,
        RotationFrequency::Weekly => a.iso_year != b.iso_year || a.iso_week != b.iso_week,
        RotationFrequency::Monthly => a.year != b.year || a.month != b.month,
    }
}

/// Decimal rendering of `n`, left-padded with zeros to at least `width`
/// digits.
pub open spec fn spec_pad_dec(n: nat, width: nat) -> Seq<char>
    decreases width,
{
    if spec_dec(n).len() >= width {
        spec_dec(n)
    } else {
        seq!['0'] + spec_pad_dec(n, (width - 1) as nat)
    }
}

/// Decimal rendering of `n`, left-padded with zeros to at least `width`
/// digits.
pub fn pad_dec(n: u32, width: usize) -> (r: String)
    ensures
        r@ == spec_pad_dec(n as nat, width as nat),
    decreases width,
{
    let plain = u64_to_dec(n as u64);
    if plain.as_str().unicode_len() >= width {
        plain
    } else {
        let mut r = String::new();
        r.append("0");
        let rest = pad_dec(n, width - 1);
        r.append(rest.as_str());
        proof {
            reveal_strlit("0");
            assert(r@ =~= spec_pad_dec(n as nat, width as nat));
        }
        r
    }
}

/// The calendar suffix of a time-based backup: `YYYY-MM-DD` for daily
/// rotation, `YYYY-Www` (ISO week) for weekly, `YYYY-MM` for monthly.
pub open spec fn spec_time_suffix(freq: RotationFrequency, stamp: CalendarStamp) -> Seq<char> {
    match freq {
        RotationFrequency::Daily => spec_pad_dec(stamp.year as nat, 4) + "-"@ + spec_pad_dec(
            stamp.month as nat,
            2,
        ) + "-"@ + spec_pad_dec(stamp.day_of_month as nat, 2),
        RotationFrequency::Weekly => spec_pad_dec(stamp.iso_year as nat, 4) + "-W"@ + spec_pad_dec(
            stamp.iso_week as nat,
            2,
        ),
        RotationFrequency::Monthly => spec_pad_dec(stamp.year as nat, 4) + "-"@ + spec_pad_dec(
            stamp.month as nat,
            2,
        ),
    }
}

/// The backup suffix a rotation at `now` produces: for size-based rotation a
/// strictly growing number (the Unix second, bumped past the previous suffix
/// for uniqueness), for time-based rotation the calendar suffix.
pub open spec fn spec_rot_suffix(w: FileWriter, now: u64, stamp: CalendarStamp) -> Seq<char> {
    match w.config.rotation {
        RotationConfig::Time { frequency, .. } => spec_time_suffix(frequency, stamp),
        _ => spec_dec(spec_next_size_suffix(w, now)),
    }
}

/// The numeric suffix of the next size-based backup.
pub open spec fn spec_next_size_suffix(w: FileWriter, now: u64) -> nat {
    if now / 1000 > w.last_size_suffix {
        (now / 1000) as nat
    } else {
        if w.last_size_suffix == u64::MAX {
            u64::MAX as nat
        } else {
            (w.last_size_suffix + 1) as nat
        }
    }
}

/// Whether the final path component of `path` has an extension: a `.` after
/// its first character.
pub open spec fn spec_has_ext(path: Seq<char>) -> bool {
    let comp_start = match spec_find_last(path, '/') {
        Some(i) => i + 1,
        None => 0,
    };
    match spec_find_last(path, '.') {
        Some(d) => d > comp_start,
        None => false,
    }
}

/// The name a rotated file is renamed to: the path with `.suffix` appended,
/// with a `.log` inserted first when the file name has no extension.
pub open spec fn spec_backup_name(path: Seq<char>, suffix: Seq<char>) -> Seq<char> {
    if spec_has_ext(path) {
        path + "."@ + suffix
    } else {
        path + ".log."@ + suffix
    }
}

/// The byte cost of one written line: its UTF-8 length plus the terminator.
pub open spec fn spec_line_cost(line: Seq<char>) -> nat {
    ((vstd::utf8::encode_utf8(line).len() as usize) + 1) as nat
}

/// The active file's size after appending `line`, saturating at `u64::MAX`.
pub open spec fn spec_grown_size(cur: u64, line: Seq<char>) -> u64 {
    if cur + spec_line_cost(line) > u64::MAX {
        u64::MAX
    } else {
        (cur + spec_line_cost(line)) as u64
    }
}

/// The rotation-check time after a write at `now`: a time-based policy stamps
/// the check time whenever the throttle window has elapsed.
pub open spec fn spec_checked_lrc(w: FileWriter, now: u64) -> u64 {
    if w.config.rotation is Time && now >= w.last_rotation_check + 60000 {
        now
    } else {
        w.last_rotation_check
    }
}

/// The backups pushed by a rotation of `w` at `now`, before retention.
pub open spec fn spec_pushed_backups(w: FileWriter, now: u64, stamp: CalendarStamp) -> Seq<
    BackupView,
> {
    w.backups@.map(|_i: int, b: BackupFile| b@).push(
        BackupView {
            name: spec_backup_name(w.config.path@, spec_rot_suffix(w, now, stamp)),
            lines: lines_of(w.active_lines@),
        },
    )
}

/// The backups dropped by retention after a rotation of `w` at `now`.
pub open spec fn spec_dropped_backups(w: FileWriter, now: u64, stamp: CalendarStamp) -> Seq<
    BackupView,
> {
    let pushed = spec_pushed_backups(w, now, stamp);
    let keep = spec_keep(w.config.rotation);
    if keep == 0 || pushed.len() <= keep {
        Seq::<BackupView>::empty()
    } else {
        pushed.subrange(0, pushed.len() - keep)
    }
}

/// The file operations emitted by one write of `line` through `w` at `now`:
/// when rotation is due, a flush, the rename, the removals of retired backups
/// and a fresh open; then the append, and a flush when the writer flushes
/// after every write.
pub open spec fn spec_file_write_ops(
    w: FileWriter,
    line: Seq<char>,
    now: u64,
    stamp: CalendarStamp,
) -> Seq<FileOpView> {
    (if spec_rotation_due(w, now, stamp) {
        seq![
            FileOpView::Flush { path: w.config.path@ },
            FileOpView::Rename {
                from: w.config.path@,
                to: spec_backup_name(w.config.path@, spec_rot_suffix(w, now, stamp)),
            },
        ] + spec_dropped_backups(w, now, stamp).map(
            |_i: int, b: BackupView| FileOpView::Remove { path: b.name },
        ) + seq![
            FileOpView::Open {
                path: w.config.path@,
                append: w.config.append,
                buffer: w.config.buffer_size,
            },
        ]
    } else {
        Seq::<FileOpView>::empty()
    }) + seq![FileOpView::AppendLine { path: w.config.path@, text: line }] + (if w.config.flush_interval
        == 0 {
        seq![FileOpView::Flush { path: w.config.path@ }]
    } else {
        Seq::<FileOpView>::empty()
    })
}

/// Concatenation distributes over the lines of two runs of backups.
pub proof fn lemma_all_backup_lines_concat(bs1: Seq<BackupView>, bs2: Seq<BackupView>)
    ensures
        all_backup_lines(bs1 + bs2) == all_backup_lines(bs1) + all_backup_lines(bs2),
    decreases bs1.len(),
{
    if bs1.len() == 0 {
        assert(bs1 + bs2 =~= bs2);
        assert(all_backup_lines(bs1) + all_backup_lines(bs2) =~= all_backup_lines(bs2));
    } else {
        assert((bs1 + bs2).drop_first() =~= bs1.drop_first() + bs2);
        lemma_all_backup_lines_concat(bs1.drop_first(), bs2);
        assert(all_backup_lines(bs1 + bs2) =~= all_backup_lines(bs1) + all_backup_lines(bs2));
    }
}

/// Pushing the same element keeps the suffix relation.
pub proof fn lemma_suffix_push<T>(a: Seq<T>, b: Seq<T>, x: T)
    requires
        is_suffix_of(a, b),
    ensures
        is_suffix_of(a.push(x), b.push(x)),
{
    assert(a.push(x) =~= b.push(x).subrange(
        b.push(x).len() - a.push(x).len(),
        b.push(x).len() as int,
    ));
}

/// The suffix relation is transitive.
pub proof fn lemma_suffix_trans<T>(a: Seq<T>, b: Seq<T>, c: Seq<T>)
    requires
        is_suffix_of(a, b),
        is_suffix_of(b, c),
    ensures
        is_suffix_of(a, c),
{
    assert(a =~= c.subrange(c.len() - a.len(), c.len() as int));
}

/// Retention keeps a suffix of the backup run's lines.
pub proof fn lemma_cleanup_lines_suffix(bs: Seq<BackupView>, keep: nat)
    ensures
        is_suffix_of(all_backup_lines(spec_cleanup(bs, keep)), all_backup_lines(bs)),
{
    if keep == 0 || bs.len() <= keep {
        let a = all_backup_lines(bs);
        assert(a =~= a.subrange(a.len() - a.len(), a.len() as int));
    } else {
        let cut = bs.len() - keep;
        let front = bs.subrange(0, cut as int);
        let back = bs.subrange(cut as int, bs.len() as int);
        assert(bs =~= front + back);
        lemma_all_backup_lines_concat(front, back);
        let a = all_backup_lines(back);
        let b = all_backup_lines(bs);
        assert(a =~= b.subrange(b.len() - a.len(), b.len() as int));
    }
}

impl FileWriter {
    /// Creates a file writer over a fresh model of the managed directory,
    /// with `now` as the baseline for time-based rotation checks and
    /// `initial_size` as the byte length the opened file already has (0 for a
    /// fresh or truncated file; a shell appending to an existing file passes
    /// the measured length so size-based rotation fires on time). Emits the
    /// open of the active file.
    pub fn new_at(
        config: FileConfig,
        formatter: FormatterKind,
        now: u64,
        initial_size: u64,
        fx: &mut Effects,
    ) -> (w: FileWriter)
        ensures
            w.config == config,
            w.formatter == formatter,
            w.current_size == initial_size,
            w.last_rotation_check == now,
            w.last_size_suffix == 0,
            w.active_lines@.len() == 0,
            w.active_stamp is None,
            w.backups@.len() == 0,
            w.written@ == Seq::<Seq<char>>::empty(),
            file_wf(w),
            final(fx)@.console == old(fx)@.console,
            final(fx)@.file_ops == old(fx)@.file_ops.push(
                FileOpView::Open {
                    path: config.path@,
                    append: config.append,
                    buffer: config.buffer_size,
                },
            ),
    {
        let op = FileOp::Open {
            path: config.path.clone(),
            append: config.append,
            buffer: config.buffer_size,
        };
        fx.push_op(op);
        let w = FileWriter {
            config,
            formatter,
            current_size: initial_size,
            last_rotation_check: now,
            last_size_suffix: 0,
            active_lines: Vec::new(),
            active_stamp: None,
            backups: Vec::new(),
            written: Ghost(Seq::empty()),
        };
        proof {
            assert(w.backups@.map(|_i: int, b: BackupFile| b@) =~= Seq::<BackupView>::empty());
            assert(spec_surviving(w) =~= Seq::<Seq<char>>::empty());
            assert(spec_surviving(w) =~= w.written@.subrange(0, 0));
            assert(is_suffix_of(spec_surviving(w), w.written@));
        }
        w
    }

    /// Creates a file writer over a fresh file, reading the clock for the
    /// rotation baseline.
    pub fn new(config: FileConfig, formatter: FormatterKind, fx: &mut Effects) -> (w: FileWriter)
        ensures
            w.config == config,
            w.formatter == formatter,
            w.current_size == 0,
            w.last_size_suffix == 0,
            w.active_lines@.len() == 0,
            w.active_stamp is None,
            w.backups@.len() == 0,
            w.written@ == Seq::<Seq<char>>::empty(),
            file_wf(w),
            final(fx)@.console == old(fx)@.console,
            final(fx)@.file_ops == old(fx)@.file_ops.push(
                FileOpView::Open {
                    path: config.path@,
                    append: config.append,
                    buffer: config.buffer_size,
                },
            ),
    {
        let now = crate::time::now_millis();
        Self::new_at(config, formatter, now, 0, fx)
    }

    /// Consults the rotation policy: whether the coming write must rotate
    /// first. A time-based policy runs its calendar check at most once per
    /// minute and stamps the check time.
    fn check_rotation(&mut self, now: u64, stamp: CalendarStamp) -> (r: bool)
        ensures
            r == spec_rotation_due(*old(self), now, stamp),
            *final(self) == (FileWriter {
                last_rotation_check: spec_checked_lrc(*old(self), now),
                ..*old(self)
            }),
    {
        match self.config.rotation {
            RotationConfig::Disabled => false,
            RotationConfig::Size { max_size, .. } => self.current_size >= max_size,
            RotationConfig::Time { frequency, .. } => {
                if now >= self.last_rotation_check && now - self.last_rotation_check >= 60000 {
                    self.last_rotation_check = now;
                    match self.active_stamp {
                        Some(st) => bucket_differs(frequency, st, stamp),
                        None => false,
                    }
                } else {
                    false
                }
            },
        }
    }

    /// Rotates the active file: flushes and renames it to its backup name,
    /// retires the oldest backups beyond the retention count, and reopens the
    /// path fresh.
    fn rotate(&mut self, now: u64, stamp: CalendarStamp, fx: &mut Effects)
        requires
            !(old(self).config.rotation is Disabled),
        ensures
            final(self).config == old(self).config,
            final(self).formatter == old(self).formatter,
            final(self).current_size == 0,
            final(self).last_rotation_check == old(self).last_rotation_check,
            final(self).active_lines@.len() == 0,
            final(self).active_stamp is None,
            final(self).written == old(self).written,
            final(self).last_size_suffix as nat == (if old(self).config.rotation is Size {
                spec_next_size_suffix(*old(self), now)
            } else {
                old(self).last_size_suffix as nat
            }),
            final(self).backups@.map(|_i: int, b: BackupFile| b@) == spec_cleanup(
                spec_pushed_backups(*old(self), now, stamp),
                spec_keep(old(self).config.rotation),
            ),
            final(fx)@.console == old(fx)@.console,
            final(fx)@.file_ops == old(fx)@.file_ops + seq![
                FileOpView::Flush { path: old(self).config.path@ },
                FileOpView::Rename {
                    from: old(self).config.path@,
                    to: spec_backup_name(
                        old(self).config.path@,
                        spec_rot_suffix(*old(self), now, stamp),
                    ),
                },
            ] + spec_dropped_backups(*old(self), now, stamp).map(
                |_i: int, b: BackupView| FileOpView::Remove { path: b.name },
            ) + seq![
                FileOpView::Open {
                    path: old(self).config.path@,
                    append: old(self).config.append,
                    buffer: old(self).config.buffer_size,
                },
            ],
    {
        let ghost old_self = *self;
        fx.push_op(FileOp::Flush { path: self.config.path.clone() });
        let suffix = match self.config.rotation {
            RotationConfig::Time { frequency, .. } => time_suffix(frequency, stamp),
            _ => {
                let secs = now / 1000;
                let n = if secs > self.last_size_suffix {
                    secs
                } else {
                    if self.last_size_suffix == u64::MAX {
                        u64::MAX
                    } else {
                        self.last_size_suffix + 1
                    }
                };
                self.last_size_suffix = n;
                u64_to_dec(n)
            },
        };
        let bname = backup_name(self.config.path.as_str(), suffix.as_str());
        fx.push_op(
            FileOp::Rename { from: self.config.path.clone(), to: bname.clone() },
        );
        let mut moved: Vec<String> = Vec::new();
        core::mem::swap(&mut self.active_lines, &mut moved);
        let backup = BackupFile { name: bname, lines: moved };
        proof {
            assert(backup@ == spec_pushed_backups(old_self, now, stamp).last());
        }
        self.backups.push(backup);
        proof {
            assert(self.backups@.map(|_i: int, b: BackupFile| b@) =~= spec_pushed_backups(
                old_self,
                now,
                stamp,
            ));
        }
        let keep = match self.config.rotation {
            RotationConfig::Size { keep_files, .. } => keep_files,
            RotationConfig::Time { keep_files, .. } => keep_files,
            RotationConfig::Disabled => 0,
        };
        let ghost pushed = spec_pushed_backups(old_self, now, stamp);
        let ghost dropped = spec_dropped_backups(old_self, now, stamp);
        if keep > 0 {
            let mut removed: usize = 0;
            let ghost total = if pushed.len() > keep as nat {
                pushed.len() - keep as nat
            } else {
                0
            };
            proof {
                assert(dropped.len() == total);
                assert(dropped =~= pushed.subrange(0, total as int));
            }
            while self.backups.len() > keep
                invariant
                    keep > 0,
                    keep as nat == spec_keep(old(self).config.rotation),
                    old_self == *old(self),
                    pushed == spec_pushed_backups(*old(self), now, stamp),
                    dropped == spec_dropped_backups(*old(self), now, stamp),
                    total == dropped.len(),
                    dropped =~= pushed.subrange(0, total as int),
                    (removed as nat) <= total,
                    self.backups@.len() == pushed.len() - removed as nat,
                    self.backups@.map(|_i: int, b: BackupFile| b@) =~= pushed.subrange(
                        removed as int,
                        pushed.len() as int,
                    ),
                    total == (if pushed.len() > keep as nat {
                        pushed.len() - keep as nat
                    } else {
                        0
                    }),
                    (removed as nat) < total ==> self.backups@.len() > keep as nat,
                    self.backups@.len() > keep as nat ==> (removed as nat) < total,
                    fx@.console == old(fx)@.console,
                    fx@.file_ops =~= old(fx)@.file_ops + seq![
                        FileOpView::Flush { path: old_self.config.path@ },
                        FileOpView::Rename {
                            from: old_self.config.path@,
                            to: spec_backup_name(
                                old_self.config.path@,
                                spec_rot_suffix(old_self, now, stamp),
                            ),
                        },
                    ] + dropped.subrange(0, removed as int).map(
                        |_i: int, b: BackupView| FileOpView::Remove { path: b.name },
                    ),
                    self.config == old_self.config,
                    self.formatter == old_self.formatter,
                    self.last_rotation_check == old_self.last_rotation_check,
                    self.active_lines@.len() == 0,
                    self.written == old_self.written,
                    self.active_stamp == old_self.active_stamp,
                    self.last_size_suffix as nat == (if old_self.config.rotation is Size {
                        spec_next_size_suffix(old_self, now)
                    } else {
                        old_self.last_size_suffix as nat
                    }),
                decreases self.backups@.len(),
            {
                let ghost before_vec = self.backups@;
                let ghost before = self.backups@.map(|_i: int, b: BackupFile| b@);
                let retired = self.backups.remove(0);
                proof {
                    assert((removed as nat) < total);
                    assert(self.backups@ =~= before_vec.drop_first());
                    assert(self.backups@.map(|_i: int, b: BackupFile| b@) =~= before.drop_first());
                    assert(before.drop_first() =~= pushed.subrange(
                        removed as int + 1,
                        pushed.len() as int,
                    ));
                    assert(retired == before_vec[0]);
                    assert(retired@ == before[0]);
                    assert(before[0] == pushed[removed as int]);
                    assert(pushed[removed as int] == dropped[removed as int]);
                }
                fx.push_op(FileOp::Remove { path: retired.name });
                proof {
                    assert(dropped.subrange(0, removed as int + 1) =~= dropped.subrange(
                        0,
                        removed as int,
                    ).push(dropped[removed as int]));
                    assert(dropped.subrange(0, removed as int + 1).map(
                        |_i: int, b: BackupView| FileOpView::Remove { path: b.name },
                    ) =~= dropped.subrange(0, removed as int).map(
                        |_i: int, b: BackupView| FileOpView::Remove { path: b.name },
                    ).push(FileOpView::Remove { path: dropped[removed as int].name }));
                }
                proof {
                    assert(old(self).backups.len() == old(self).backups@.len());
                    assert(pushed.len() == old(self).backups@.len() + 1);
                    assert(total <= usize::MAX as nat);
                }
                removed += 1;
            }
            proof {
                assert((removed as nat) == total);
                assert(dropped.subrange(0, removed as int) =~= dropped);
                assert(self.backups@.map(|_i: int, b: BackupFile| b@) =~= spec_cleanup(
                    pushed,
                    keep as nat,
                ));
            }
        } else {
            proof {
                assert(dropped =~= Seq::<BackupView>::empty());
                assert(dropped.map(|_i: int, b: BackupView| FileOpView::Remove { path: b.name })
                    =~= Seq::<FileOpView>::empty());
            }
        }
        self.current_size = 0;
        self.active_stamp = None;
        fx.push_op(
            FileOp::Open {
                path: self.config.path.clone(),
                append: self.config.append,
                buffer: self.config.buffer_size,
            },
        );
        proof {
            assert(fx@.file_ops =~= old(fx)@.file_ops + seq![
                FileOpView::Flush { path: old_self.config.path@ },
                FileOpView::Rename {
                    from: old_self.config.path@,
                    to: spec_backup_name(
                        old_self.config.path@,
                        spec_rot_suffix(old_self, now, stamp),
                    ),
                },
            ] + dropped.map(|_i: int, b: BackupView| FileOpView::Remove { path: b.name }) + seq![
                FileOpView::Open {
                    path: old_self.config.path@,
                    append: old_self.config.append,
                    buffer: old_self.config.buffer_size,
                },
            ]);
        }
    }
}

impl FileWriter {
    /// Writes one rendered line: consults the rotation policy, rotates when
    /// due, appends the line to the active file and grows the size counter by
    /// the line's byte cost, and flushes at once when the flush interval is
    /// zero. In the model a write cannot fail.
    pub fn write(
        &mut self,
        _record: &LogRecord,
        formatted: &str,
        now: u64,
        stamp: CalendarStamp,
        fx: &mut Effects,
    ) -> (r: Result<(), LoggerError>)
        ensures
            r is Ok,
            final(self).config == old(self).config,
            final(self).formatter == old(self).formatter,
            final(self).written@ == old(self).written@.push(formatted@),
            final(self).active_stamp == Some(stamp),
            final(self).last_rotation_check == spec_checked_lrc(*old(self), now),
            !spec_rotation_due(*old(self), now, stamp) ==> {
                &&& final(self).backups == old(self).backups
                &&& lines_of(final(self).active_lines@) == lines_of(
                    old(self).active_lines@,
                ).push(formatted@)
                &&& final(self).current_size == spec_grown_size(
                    old(self).current_size,
                    formatted@,
                )
                &&& final(self).last_size_suffix == old(self).last_size_suffix
            },
            spec_rotation_due(*old(self), now, stamp) ==> {
                &&& final(self).backups@.map(|_i: int, b: BackupFile| b@) == spec_cleanup(
                    spec_pushed_backups(*old(self), now, stamp),
                    spec_keep(old(self).config.rotation),
                )
                &&& lines_of(final(self).active_lines@) == seq![formatted@]
                &&& final(self).current_size == spec_grown_size(0, formatted@)
                &&& final(self).last_size_suffix as nat == (
                if old(self).config.rotation is Size {
                    spec_next_size_suffix(*old(self), now)
                } else {
                    old(self).last_size_suffix as nat
                })
            },
            final(fx)@.console == old(fx)@.console,
            final(fx)@.file_ops == old(fx)@.file_ops + spec_file_write_ops(
                *old(self),
                formatted@,
                now,
                stamp,
            ),
            file_wf(*old(self)) ==> file_wf(*final(self)),
    {
        let ghost old_self = *self;
        let ghost line = formatted@;
        let due = self.check_rotation(now, stamp);
        if due {
            self.rotate(now, stamp, fx);
        }
        let ghost pre_size = self.current_size;
        let mut text = String::new();
        text.append(formatted);
        proof {
            assert(text@ =~= formatted@);
        }
        fx.push_op(FileOp::AppendLine { path: self.config.path.clone(), text });
        let mut owned = String::new();
        owned.append(formatted);
        proof {
            assert(owned@ =~= formatted@);
        }
        let ghost pre_lines = self.active_lines@;
        self.active_lines.push(owned);
        proof {
            assert(lines_of(self.active_lines@) =~= lines_of(pre_lines).push(line));
        }
        let bytes: u64 = formatted.len() as u64;
        self.current_size = self.current_size.saturating_add(bytes).saturating_add(1);
        proof {
            assert(self.current_size == spec_grown_size(pre_size, line));
        }
        self.active_stamp = Some(stamp);
        self.written = Ghost(self.written@.push(line));
        if self.config.flush_interval == 0 {
            fx.push_op(FileOp::Flush { path: self.config.path.clone() });
        }
        proof {
            assert(fx@.file_ops =~= old(fx)@.file_ops + spec_file_write_ops(
                old_self,
                line,
                now,
                stamp,
            ));
            if file_wf(old_self) {
                let keep = spec_keep(old_self.config.rotation);
                if !spec_rotation_due(old_self, now, stamp) {
                    assert(spec_surviving(*self) =~= spec_surviving(old_self).push(line));
                    lemma_suffix_push(spec_surviving(old_self), old_self.written@, line);
                } else {
                    let pushed = spec_pushed_backups(old_self, now, stamp);
                    let oldmap = old_self.backups@.map(|_i: int, b: BackupFile| b@);
                    let nb = BackupView {
                        name: spec_backup_name(
                            old_self.config.path@,
                            spec_rot_suffix(old_self, now, stamp),
                        ),
                        lines: lines_of(old_self.active_lines@),
                    };
                    assert(pushed =~= oldmap + seq![nb]);
                    lemma_all_backup_lines_concat(oldmap, seq![nb]);
                    let single = seq![nb];
                    assert(single.drop_first() =~= Seq::<BackupView>::empty());
                    assert(all_backup_lines(single.drop_first())
                        == Seq::<Seq<char>>::empty());
                    assert(all_backup_lines(single) =~= nb.lines);
                    assert(all_backup_lines(pushed) =~= spec_surviving(old_self));
                    lemma_cleanup_lines_suffix(pushed, keep);
                    assert(spec_surviving(*self) =~= all_backup_lines(
                        spec_cleanup(pushed, keep),
                    ).push(line));
                    lemma_suffix_trans(
                        all_backup_lines(spec_cleanup(pushed, keep)),
                        all_backup_lines(pushed),
                        old_self.written@,
                    );
                    lemma_suffix_push(
                        all_backup_lines(spec_cleanup(pushed, keep)),
                        old_self.written@,
                        line,
                    );
                    if keep == 0 {
                        assert(spec_cleanup(pushed, keep) == pushed);
                        assert(spec_surviving(*self) =~= old_self.written@.push(line));
                    }
                }
                assert(file_wf(*self));
            }
        }
        Ok(())
    }

    /// Flushes the active file: the writer's state is untouched and one flush
    /// operation is emitted. In the model a flush cannot fail.
    pub fn flush(&mut self, fx: &mut Effects) -> (r: Result<(), LoggerError>)
        ensures
            r is Ok,
            *final(self) == *old(self),
            final(fx)@.console == old(fx)@.console,
            final(fx)@.file_ops == old(fx)@.file_ops.push(
                FileOpView::Flush { path: old(self).config.path@ },
            ),
    {
        fx.push_op(FileOp::Flush { path: self.config.path.clone() });
        Ok(())
    }

    /// A file writer accepts every level.
    pub fn should_write(&self, _level: LogLevel) -> (r: bool)
        ensures
            r,
    {
        true
    }
}

/// The calendar suffix of a time-based backup (see [`spec_time_suffix`]).
pub fn time_suffix(freq: RotationFrequency, stamp: CalendarStamp) -> (r: String)
    ensures
        r@ == spec_time_suffix(freq, stamp),
{
    match freq {
        RotationFrequency::Daily => {
            let mut r = pad_dec(stamp.year, 4);
            r.append("-");
            let m = pad_dec(stamp.month, 2);
            r.append(m.as_str());
            r.append("-");
            let d = pad_dec(stamp.day_of_month, 2);
            r.append(d.as_str());
            proof {
                assert(r@ =~= spec_time_suffix(freq, stamp));
            }
            r
        },
        RotationFrequency::Weekly => {
            let mut r = pad_dec(stamp.iso_year, 4);
            r.append("-W");
            let w = pad_dec(stamp.iso_week, 2);
            r.append(w.as_str());
            proof {
                assert(r@ =~= spec_time_suffix(freq, stamp));
            }
            r
        },
        RotationFrequency::Monthly => {
            let mut r = pad_dec(stamp.year, 4);
            r.append("-");
            let m = pad_dec(stamp.month, 2);
            r.append(m.as_str());
            proof {
                assert(r@ =~= spec_time_suffix(freq, stamp));
            }
            r
        },
    }
}

/// The console stream a record goes to: standard error for errors and
/// warnings when stderr routing is on, standard output otherwise.
pub open spec fn spec_console_stream(use_stderr: bool, level: LogLevel) -> Stream {
    if use_stderr && (level == LogLevel::Error || level == LogLevel::Warning) {
        Stream::Stderr
    } else {
        Stream::Stdout
    }
}

/// Console writer that emits lines for standard output or standard error.
pub struct ConsoleWriter {
    /// Whether to route errors and warnings to standard error.
    pub use_stderr: bool,
    /// Formatter owned by this writer; a console write renders the record
    /// with it rather than using the pre-rendered string it is handed.
    pub formatter: FormatterKind,
}

/// The line a console writer emits for a record whose timestamp rendered as
/// `ts`.
pub open spec fn spec_console_line(
    w: ConsoleWriter,
    rec: crate::record::RecordView,
    ts: Seq<char>,
) -> ConsoleLineView {
    ConsoleLineView {
        stream: spec_console_stream(w.use_stderr, rec.level),
        text: crate::format::spec_formatted(w.formatter, rec, ts),
    }
}

impl ConsoleWriter {
    /// Creates a new console writer.
    pub fn new(use_stderr: bool, formatter: FormatterKind) -> (w: ConsoleWriter)
        ensures
            w.use_stderr == use_stderr,
            w.formatter == formatter,
    {
        ConsoleWriter { use_stderr, formatter }
    }

    /// Emits the record as one console line, re-rendering it with this
    /// writer's own formatter around the pre-rendered timestamp `ts`.
    pub fn write_with_timestamp(
        &mut self,
        record: &LogRecord,
        _formatted: &str,
        ts: &str,
        fx: &mut Effects,
    ) -> (r: Result<(), LoggerError>)
        ensures
            r is Ok,
            *final(self) == *old(self),
            final(fx)@.file_ops == old(fx)@.file_ops,
            final(fx)@.console == old(fx)@.console.push(
                spec_console_line(*old(self), record@, ts@),
            ),
    {
        let text = self.formatter.format_with_timestamp(record, ts);
        let stream = if self.use_stderr && (matches!(record.level, LogLevel::Error) || matches!(
            record.level,
            LogLevel::Warning,
        )) {
            Stream::Stderr
        } else {
            Stream::Stdout
        };
        fx.push_line(ConsoleLine { stream, text });
        Ok(())
    }

    /// Emits the record as one console line, rendering its timestamp with
    /// this writer's formatter.
    pub fn write(&mut self, record: &LogRecord, _formatted: &str, fx: &mut Effects) -> (r: Result<
        (),
        LoggerError,
    >)
        ensures
            r is Ok,
            *final(self) == *old(self),
            final(fx)@.file_ops == old(fx)@.file_ops,
            exists|ts: Seq<char>|
                final(fx)@.console == old(fx)@.console.push(
                    spec_console_line(*old(self), record@, ts),
                ),
    {
        let ts = crate::time::render_local_time(record.timestamp, self.formatter_layout());
        let r = self.write_with_timestamp(record, _formatted, ts.as_str(), fx);
        proof {
            assert(fx@.console == old(fx)@.console.push(
                spec_console_line(*old(self), record@, ts@),
            ));
        }
        r
    }

    fn formatter_layout(&self) -> (r: &str) {
        match &self.formatter {
            FormatterKind::Text(t) => t.datetime_format.as_str(),
            FormatterKind::Json(j) => j.datetime_format.as_str(),
            FormatterKind::Plain(p) => p.datetime_format.as_str(),
        }
    }

    /// Flushing the console is a no-op in the model: the shell flushes the
    /// real streams.
    pub fn flush(&mut self, fx: &mut Effects) -> (r: Result<(), LoggerError>)
        ensures
            r is Ok,
            *final(self) == *old(self),
            *final(fx) == *old(fx),
    {
        Ok(())
    }

    /// A console writer accepts every level.
    pub fn should_write(&self, _level: LogLevel) -> (r: bool)
        ensures
            r,
    {
        true
    }
}

/// A sink: one concrete destination, console or file.
pub enum SinkWriter {
    /// Console output.
    Console(ConsoleWriter),
    /// File output with rotation.
    File(FileWriter),
}

/// The relation between a sink's state before and after one write. The file
/// case is deterministic; a console writer never changes.
pub open spec fn sink_write_rel(
    w0: SinkWriter,
    w1: SinkWriter,
    line: Seq<char>,
    now: u64,
    stamp: CalendarStamp,
) -> bool {
    match w0 {
        SinkWriter::Console(_) => w1 == w0,
        SinkWriter::File(f0) => match w1 {
            SinkWriter::File(f1) => file_write_rel(f0, f1, line, now, stamp),
            _ => false,
        },
    }
}

/// The state of a file writer after one write, relative to the state before.
pub open spec fn file_write_rel(
    f0: FileWriter,
    f1: FileWriter,
    line: Seq<char>,
    now: u64,
    stamp: CalendarStamp,
) -> bool {
    &&& f1.config == f0.config
    &&& f1.formatter == f0.formatter
    &&& f1.written@ == f0.written@.push(line)
    &&& f1.active_stamp == Some(stamp)
    &&& f1.last_rotation_check == spec_checked_lrc(f0, now)
    &&& (!spec_rotation_due(f0, now, stamp) ==> {
        &&& f1.backups == f0.backups
        &&& lines_of(f1.active_lines@) == lines_of(f0.active_lines@).push(line)
        &&& f1.current_size == spec_grown_size(f0.current_size, line)
        &&& f1.last_size_suffix == f0.last_size_suffix
    })
    &&& (spec_rotation_due(f0, now, stamp) ==> {
        &&& f1.backups@.map(|_i: int, b: BackupFile| b@) == spec_cleanup(
            spec_pushed_backups(f0, now, stamp),
            spec_keep(f0.config.rotation),
        )
        &&& lines_of(f1.active_lines@) == seq![line]
        &&& f1.current_size == spec_grown_size(0, line)
    })
    &&& (file_wf(f0) ==> file_wf(f1))
}

/// The console lines one write through a sink emits.
pub open spec fn sink_write_console(
    w: SinkWriter,
    rec: crate::record::RecordView,
    ts: Seq<char>,
) -> Seq<ConsoleLineView> {
    match w {
        SinkWriter::Console(c) => seq![spec_console_line(c, rec, ts)],
        SinkWriter::File(_) => Seq::<ConsoleLineView>::empty(),
    }
}

/// The file operations one write through a sink emits.
pub open spec fn sink_write_ops(
    w: SinkWriter,
    line: Seq<char>,
    now: u64,
    stamp: CalendarStamp,
) -> Seq<FileOpView> {
    match w {
        SinkWriter::Console(_) => Seq::<FileOpView>::empty(),
        SinkWriter::File(f) => spec_file_write_ops(f, line, now, stamp),
    }
}

/// The file operations one flush of a sink emits.
pub open spec fn sink_flush_ops(w: SinkWriter) -> Seq<FileOpView> {
    match w {
        SinkWriter::Console(_) => Seq::<FileOpView>::empty(),
        SinkWriter::File(f) => seq![FileOpView::Flush { path: f.config.path@ }],
    }
}

/// The sink's invariant: the file model is well formed.
pub open spec fn sink_wf(w: SinkWriter) -> bool {
    match w {
        SinkWriter::Console(_) => true,
        SinkWriter::File(f) => file_wf(f),
    }
}

impl SinkWriter {
    /// Writes one record through the sink: a console sink re-renders the
    /// record around `ts`, a file sink appends the pre-rendered `formatted`.
    pub fn write_with_timestamp(
        &mut self,
        record: &LogRecord,
        formatted: &str,
        ts: &str,
        now: u64,
        stamp: CalendarStamp,
        fx: &mut Effects,
    ) -> (r: Result<(), LoggerError>)
        ensures
            r is Ok,
            sink_write_rel(*old(self), *final(self), formatted@, now, stamp),
            final(fx)@.console == old(fx)@.console + sink_write_console(
                *old(self),
                record@,
                ts@,
            ),
            final(fx)@.file_ops == old(fx)@.file_ops + sink_write_ops(
                *old(self),
                formatted@,
                now,
                stamp,
            ),
            sink_wf(*old(self)) ==> sink_wf(*final(self)),
    {
        let r = match self {
            SinkWriter::Console(c) => c.write_with_timestamp(record, formatted, ts, fx),
            SinkWriter::File(f) => f.write(record, formatted, now, stamp, fx),
        };
        proof {
            match *old(self) {
                SinkWriter::Console(c0) => {
                    assert(fx@.console =~= old(fx)@.console + sink_write_console(
                        *old(self),
                        record@,
                        ts@,
                    ));
                    assert(fx@.file_ops =~= old(fx)@.file_ops + sink_write_ops(
                        *old(self),
                        formatted@,
                        now,
                        stamp,
                    ));
                },
                SinkWriter::File(f0) => {
                    assert(fx@.console =~= old(fx)@.console + sink_write_console(
                        *old(self),
                        record@,
                        ts@,
                    ));
                },
            }
        }
        r
    }

    /// Flushes the sink.
    pub fn flush(&mut self, fx: &mut Effects) -> (r: Result<(), LoggerError>)
        ensures
            r is Ok,
            *final(self) == *old(self),
            final(fx)@.console == old(fx)@.console,
            final(fx)@.file_ops == old(fx)@.file_ops + sink_flush_ops(*old(self)),
    {
        let r = match self {
            SinkWriter::Console(c) => c.flush(fx),
            SinkWriter::File(f) => f.flush(fx),
        };
        proof {
            assert(fx@.file_ops =~= old(fx)@.file_ops + sink_flush_ops(*old(self)));
        }
        r
    }

    /// A sink accepts every level.
    pub fn should_write(&self, _level: LogLevel) -> (r: bool)
        ensures
            r,
    {
        true
    }
}

/// The console lines the first `n` sinks of `ws` emit for one record.
pub open spec fn multi_console_upto(
    ws: Seq<SinkWriter>,
    rec: crate::record::RecordView,
    ts: Seq<char>,
    n: int,
) -> Seq<ConsoleLineView>
    decreases n,
{
    if n <= 0 {
        Seq::<ConsoleLineView>::empty()
    } else {
        multi_console_upto(ws, rec, ts, n - 1) + sink_write_console(ws[n - 1], rec, ts)
    }
}

/// The file operations the first `n` sinks of `ws` emit for one write.
pub open spec fn multi_ops_upto(
    ws: Seq<SinkWriter>,
    line: Seq<char>,
    now: u64,
    stamp: CalendarStamp,
    n: int,
) -> Seq<FileOpView>
    decreases n,
{
    if n <= 0 {
        Seq::<FileOpView>::empty()
    } else {
        multi_ops_upto(ws, line, now, stamp, n - 1) + sink_write_ops(ws[n - 1], line, now, stamp)
    }
}

/// The file operations a flush of the first `n` sinks of `ws` emits.
pub open spec fn multi_flush_upto(ws: Seq<SinkWriter>, n: int) -> Seq<FileOpView>
    decreases n,
{
    if n <= 0 {
        Seq::<FileOpView>::empty()
    } else {
        multi_flush_upto(ws, n - 1) + sink_flush_ops(ws[n - 1])
    }
}

/// Fan-out writer: delivers each record to an ordered list of sinks. A
/// failure of one sink would not keep the record from the later sinks; in the
/// model no sink fails.
pub struct MultiWriter {
    /// The sinks, in delivery order.
    pub writers: Vec<SinkWriter>,
}

impl MultiWriter {
    /// Creates an empty fan-out.
    pub fn new() -> (w: MultiWriter)
        ensures
            w.writers@.len() == 0,
    {
        MultiWriter { writers: Vec::new() }
    }

    /// Adds a sink at the end of the delivery order.
    pub fn add_writer(self, writer: SinkWriter) -> (r: MultiWriter)
        ensures
            r.writers@ == self.writers@.push(writer),
    {
        let mut w = self;
        w.writers.push(writer);
        w
    }

    /// Adds several sinks at the end of the delivery order.
    pub fn add_writers(self, writers: Vec<SinkWriter>) -> (r: MultiWriter)
        ensures
            r.writers@ == self.writers@ + writers@,
    {
        let mut w = self;
        let mut more = writers;
        w.writers.append(&mut more);
        w
    }

    /// Delivers one record to every sink, in order.
    pub fn write_with_timestamp(
        &mut self,
        record: &LogRecord,
        formatted: &str,
        ts: &str,
        now: u64,
        stamp: CalendarStamp,
        fx: &mut Effects,
    ) -> (r: Result<(), LoggerError>)
        ensures
            r is Ok,
            final(self).writers@.len() == old(self).writers@.len(),
            forall|i: int|
                0 <= i < old(self).writers@.len() ==> sink_write_rel(
                    old(self).writers@[i],
                    final(self).writers@[i],
                    formatted@,
                    now,
                    stamp,
                ),
            final(fx)@.console == old(fx)@.console + multi_console_upto(
                old(self).writers@,
                record@,
                ts@,
                old(self).writers@.len() as int,
            ),
            final(fx)@.file_ops == old(fx)@.file_ops + multi_ops_upto(
                old(self).writers@,
                formatted@,
                now,
                stamp,
                old(self).writers@.len() as int,
            ),
            (forall|i: int| 0 <= i < old(self).writers@.len() ==> sink_wf(old(self).writers@[i]))
                ==> (forall|i: int|
                0 <= i < final(self).writers@.len() ==> sink_wf(final(self).writers@[i])),
    {
        let n = self.writers.len();
        let mut i: usize = 0;
        proof {
            assert(old(fx)@.console + multi_console_upto(old(self).writers@, record@, ts@, 0)
                =~= old(fx)@.console);
            assert(old(fx)@.file_ops + multi_ops_upto(old(self).writers@, formatted@, now, stamp, 0)
                =~= old(fx)@.file_ops);
        }
        while i < n
            invariant
                i <= n,
                n == self.writers@.len(),
                n == old(self).writers@.len(),
                forall|j: int|
                    i <= j < n ==> self.writers@[j] == old(self).writers@[j],
                forall|j: int|
                    0 <= j < i ==> sink_write_rel(
                        old(self).writers@[j],
                        self.writers@[j],
                        formatted@,
                        now,
                        stamp,
                    ),
                forall|j: int|
                    0 <= j < i ==> (sink_wf(old(self).writers@[j]) ==> sink_wf(self.writers@[j])),
                fx@.console == old(fx)@.console + multi_console_upto(
                    old(self).writers@,
                    record@,
                    ts@,
                    i as int,
                ),
                fx@.file_ops == old(fx)@.file_ops + multi_ops_upto(
                    old(self).writers@,
                    formatted@,
                    now,
                    stamp,
                    i as int,
                ),
            decreases n - i,
        {
            let level = record.level;
            let w = &mut self.writers[i];
            if w.should_write(level) {
                let _ = w.write_with_timestamp(record, formatted, ts, now, stamp, fx);
            }
            proof {
                assert(fx@.console =~= old(fx)@.console + multi_console_upto(
                    old(self).writers@,
                    record@,
                    ts@,
                    i + 1,
                ));
                assert(fx@.file_ops =~= old(fx)@.file_ops + multi_ops_upto(
                    old(self).writers@,
                    formatted@,
                    now,
                    stamp,
                    i + 1,
                ));
            }
            i += 1;
        }
        Ok(())
    }

    /// Flushes every sink, in order.
    pub fn flush(&mut self, fx: &mut Effects) -> (r: Result<(), LoggerError>)
        ensures
            r is Ok,
            final(self).writers@ == old(self).writers@,
            final(fx)@.console == old(fx)@.console,
            final(fx)@.file_ops == old(fx)@.file_ops + multi_flush_upto(
                old(self).writers@,
                old(self).writers@.len() as int,
            ),
    {
        let n = self.writers.len();
        let mut i: usize = 0;
        proof {
            assert(old(fx)@.file_ops + multi_flush_upto(old(self).writers@, 0) =~= old(
                fx,
            )@.file_ops);
        }
        while i < n
            invariant
                i <= n,
                n == self.writers@.len(),
                self.writers@ == old(self).writers@,
                fx@.console == old(fx)@.console,
                fx@.file_ops == old(fx)@.file_ops + multi_flush_upto(
                    old(self).writers@,
                    i as int,
                ),
            decreases n - i,
        {
            let w = &mut self.writers[i];
            let _ = w.flush(fx);
            proof {
                assert(self.writers@ =~= old(self).writers@);
                assert(fx@.file_ops =~= old(fx)@.file_ops + multi_flush_upto(
                    old(self).writers@,
                    i + 1,
                ));
            }
            i += 1;
        }
        Ok(())
    }

    /// Whether any sink would accept the level: true exactly when the fan-out
    /// has a sink.
    pub fn should_write(&self, level: LogLevel) -> (r: bool)
        ensures
            r == (self.writers@.len() > 0),
    {
        let n = self.writers.len();
        let mut i: usize = 0;
        while i < n
            invariant
                i == 0,
                n == self.writers@.len(),
            decreases n - i,
        {
            if self.writers[i].should_write(level) {
                return true;
            }
            i += 1;
        }
        false
    }
}

impl Default for MultiWriter {
    fn default() -> (w: Self)
        ensures
            w.writers@.len() == 0,
    {
        Self::new()
    }
}

/// Level-filtered writer: forwards only records at least as severe as its
/// minimum level.
pub struct LevelFilterWriter {
    /// Least severe level that is still forwarded.
    pub min_level: LogLevel,
    /// The sink behind the filter.
    pub inner: Box<SinkWriter>,
}

impl LevelFilterWriter {
    /// Creates a new level-filtered writer.
    pub fn new(min_level: LogLevel, inner: SinkWriter) -> (w: LevelFilterWriter)
        ensures
            w.min_level == min_level,
            *w.inner == inner,
    {
        LevelFilterWriter { min_level, inner: Box::new(inner) }
    }

    /// Forwards the record when its level passes the filter; otherwise does
    /// nothing.
    pub fn write_with_timestamp(
        &mut self,
        record: &LogRecord,
        formatted: &str,
        ts: &str,
        now: u64,
        stamp: CalendarStamp,
        fx: &mut Effects,
    ) -> (r: Result<(), LoggerError>)
        ensures
            r is Ok,
            final(self).min_level == old(self).min_level,
            record@.level.spec_passes(old(self).min_level) ==> sink_write_rel(
                *old(self).inner,
                *final(self).inner,
                formatted@,
                now,
                stamp,
            ) && final(fx)@.console == old(fx)@.console + sink_write_console(
                *old(self).inner,
                record@,
                ts@,
            ) && final(fx)@.file_ops == old(fx)@.file_ops + sink_write_ops(
                *old(self).inner,
                formatted@,
                now,
                stamp,
            ),
            !record@.level.spec_passes(old(self).min_level) ==> *final(self) == *old(self)
                && final(fx)@ == old(fx)@,
            sink_wf(*old(self).inner) ==> sink_wf(*final(self).inner),
    {
        if record.level.passes(self.min_level) {
            self.inner.write_with_timestamp(record, formatted, ts, now, stamp, fx)
        } else {
            Ok(())
        }
    }

    /// Flushes the sink behind the filter.
    pub fn flush(&mut self, fx: &mut Effects) -> (r: Result<(), LoggerError>)
        ensures
            r is Ok,
            *final(self) == *old(self),
            final(fx)@.console == old(fx)@.console,
            final(fx)@.file_ops == old(fx)@.file_ops + sink_flush_ops(*old(self).inner),
    {
        self.inner.flush(fx)
    }

    /// Whether a record at `level` would be forwarded.
    pub fn should_write(&self, level: LogLevel) -> (r: bool)
        ensures
            r == level.spec_passes(self.min_level),
    {
        level.passes(self.min_level) && self.inner.should_write(level)
    }
}

/// Periodic-flush writer: forwards every write and flushes the sink behind it
/// once the configured interval has elapsed since the last periodic flush.
pub struct BufferedWriter {
    /// The sink behind the decorator.
    pub inner: Box<SinkWriter>,
    /// Flush interval in milliseconds; 0 disables periodic flushing.
    pub flush_interval: u64,
    /// Time (milliseconds) of the last periodic flush.
    pub last_flush: u64,
}

/// Whether a periodic flush is due at `now`.
pub open spec fn spec_periodic_flush_due(w: BufferedWriter, now: u64) -> bool {
    w.flush_interval > 0 && now >= w.last_flush + w.flush_interval
}

impl BufferedWriter {
    /// Creates a new periodic-flush writer with `now` as the flush baseline.
    pub fn new(inner: SinkWriter, flush_interval: u64, now: u64) -> (w: BufferedWriter)
        ensures
            *w.inner == inner,
            w.flush_interval == flush_interval,
            w.last_flush == now,
    {
        BufferedWriter { inner: Box::new(inner), flush_interval, last_flush: now }
    }

    /// Forwards the write, then flushes the sink when the interval since the
    /// last periodic flush has elapsed.
    pub fn write_with_timestamp(
        &mut self,
        record: &LogRecord,
        formatted: &str,
        ts: &str,
        now: u64,
        stamp: CalendarStamp,
        fx: &mut Effects,
    ) -> (r: Result<(), LoggerError>)
        ensures
            r is Ok,
            final(self).flush_interval == old(self).flush_interval,
            sink_write_rel(*old(self).inner, *final(self).inner, formatted@, now, stamp),
            final(fx)@.console == old(fx)@.console + sink_write_console(
                *old(self).inner,
                record@,
                ts@,
            ),
            spec_periodic_flush_due(*old(self), now) ==> final(self).last_flush == now
                && final(fx)@.file_ops == old(fx)@.file_ops + sink_write_ops(
                *old(self).inner,
                formatted@,
                now,
                stamp,
            ) + sink_flush_ops(*final(self).inner),
            !spec_periodic_flush_due(*old(self), now) ==> final(self).last_flush
                == old(self).last_flush && final(fx)@.file_ops == old(fx)@.file_ops
                + sink_write_ops(*old(self).inner, formatted@, now, stamp),
            sink_wf(*old(self).inner) ==> sink_wf(*final(self).inner),
    {
        let r = self.inner.write_with_timestamp(record, formatted, ts, now, stamp, fx);
        if self.flush_interval > 0 && now >= self.last_flush && now - self.last_flush
            >= self.flush_interval {
            let _ = self.inner.flush(fx);
            self.last_flush = now;
        }
        r
    }

    /// Flushes the sink behind the decorator.
    pub fn flush(&mut self, fx: &mut Effects) -> (r: Result<(), LoggerError>)
        ensures
            r is Ok,
            *final(self) == *old(self),
            final(fx)@.console == old(fx)@.console,
            final(fx)@.file_ops == old(fx)@.file_ops + sink_flush_ops(*old(self).inner),
    {
        self.inner.flush(fx)
    }

    /// Whether the sink behind the decorator would accept the level.
    pub fn should_write(&self, level: LogLevel) -> (r: bool)
        ensures
            r,
    {
        self.inner.should_write(level)
    }
}

/// The name a rotated file is renamed to (see [`spec_backup_name`]).
pub fn backup_name(path: &str, suffix: &str) -> (r: String)
    ensures
        r@ == spec_backup_name(path@, suffix@),
{
    let len = path.unicode_len();
    let comp_start: usize = match find_last_char(path, '/') {
        Some(i) => i + 1,
        None => 0,
    };
    let has_ext = match find_last_char(path, '.') {
        Some(d) => d > comp_start,
        None => false,
    };
    let mut r = String::new();
    r.append(path);
    if has_ext {
        r.append(".");
    } else {
        r.append(".log.");
    }
    r.append(suffix);
    proof {
        assert(r@ =~= spec_backup_name(path@, suffix@));
    }
    r
}

} // verus!
