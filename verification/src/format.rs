//! Formatters that render a log record as one line of text, JSON or plain
//! text. The rendered line is pinned down exactly, up to the timestamp text
//! (which depends on the machine's time zone) and JSON string escaping
//! (delegated to `serde_json` and named by [`json_str_of`]).

use crate::config::{Colors, OutputFormat};
use crate::level::LogLevel;
use crate::record::{LogRecord, RecordView, ThreadView};
use crate::text::{spec_dec, u32_to_dec};
use crate::time::render_local_time;
use vstd::prelude::*;
use vstd::string::StringExecFns;

verus! {

/// The JSON rendering of a string: its text between double quotes, with the
/// escapes that JSON requires.
pub uninterp spec fn json_str_of(s: Seq<char>) -> Seq<char>;

/// Relies on `serde_json::to_string`: renders a string as a quoted, escaped
/// JSON string. Serializing a string cannot fail, so the error arm is dead.
#[verifier::external_body]
fn json_quote(s: &str) -> (r: String)
    ensures
        r@ == json_str_of(s@),
{
    match serde_json::to_string(s) {
        Ok(q) => q,
        Err(_) => String::new(),
    }
}

/// The level's name, right-aligned in seven columns.
pub open spec fn spec_padded_name(level: LogLevel) -> Seq<char> {
    match level {
        LogLevel::Error => "  ERROR"@,
        LogLevel::Warning => "WARNING"@,
        LogLevel::Info => "   INFO"@,
        LogLevel::Success => "SUCCESS"@,
        LogLevel::Debug => "  DEBUG"@,
    }
}

/// The level's name, right-aligned in seven columns.
pub fn padded_name(level: LogLevel) -> (r: &'static str)
    ensures
        r@ == spec_padded_name(level),
{
    match level {
        LogLevel::Error => "  ERROR",
        LogLevel::Warning => "WARNING",
        LogLevel::Info => "   INFO",
        LogLevel::Success => "SUCCESS",
        LogLevel::Debug => "  DEBUG",
    }
}

/// The level marker of a text line: the padded name, wrapped in the level's
/// color when colors are on.
pub open spec fn spec_level_marker(level: LogLevel, colors: bool) -> Seq<char> {
    if colors {
        Colors::spec_for_level(level) + spec_padded_name(level) + "\x1b[0m"@
    } else {
        spec_padded_name(level)
    }
}

/// The inside of the thread part of a text line: `name:id`, or `id` for a
/// nameless thread.
pub open spec fn spec_thread_part(t: ThreadView) -> Seq<char> {
    match t.name {
        Some(name) => name + ":"@ + t.id,
        None => t.id,
    }
}

/// One metadata item, rendered `key=value`.
pub open spec fn spec_meta_item(e: (Seq<char>, Seq<char>)) -> Seq<char> {
    e.0 + "="@ + e.1
}

/// The first `n` metadata items, joined by `, `.
pub open spec fn spec_meta_items(meta: Seq<(Seq<char>, Seq<char>)>, n: int) -> Seq<char>
    decreases n,
{
    if n <= 0 {
        Seq::<char>::empty()
    } else if n == 1 {
        spec_meta_item(meta[0])
    } else {
        spec_meta_items(meta, n - 1) + ", "@ + spec_meta_item(meta[n - 1])
    }
}

/// The thread section of a text line: ` [name:id]` when requested and
/// present, empty otherwise.
pub open spec fn spec_thread_section(on: bool, thread: Option<ThreadView>) -> Seq<char> {
    match thread {
        Some(t) => if on {
            " ["@ + spec_thread_part(t) + "]"@
        } else {
            Seq::<char>::empty()
        },
        None => Seq::<char>::empty(),
    }
}

/// The module section of a text line: ` [module]` when requested and present,
/// empty otherwise.
pub open spec fn spec_module_section(on: bool, module: Option<Seq<char>>) -> Seq<char> {
    match module {
        Some(m) => if on {
            " ["@ + m + "]"@
        } else {
            Seq::<char>::empty()
        },
        None => Seq::<char>::empty(),
    }
}

/// The caller section of a text line: ` [file:line]` when requested and
/// present, empty otherwise.
pub open spec fn spec_caller_section(on: bool, caller: Option<crate::record::CallerView>) -> Seq<
    char,
> {
    match caller {
        Some(c) => if on {
            " ["@ + c.file + ":"@ + spec_dec(c.line as nat) + "]"@
        } else {
            Seq::<char>::empty()
        },
        None => Seq::<char>::empty(),
    }
}

/// The metadata section of a text line: ` [k=v, ...]` when the record has
/// metadata, empty otherwise.
pub open spec fn spec_meta_section(meta: Seq<(Seq<char>, Seq<char>)>) -> Seq<char> {
    if meta.len() > 0 {
        " ["@ + spec_meta_items(meta, meta.len() as int) + "]"@
    } else {
        Seq::<char>::empty()
    }
}

/// The text rendering of a record: the timestamp, the level marker, then the
/// optional thread, module and caller parts, the message, and the metadata,
/// separated by single spaces.
pub open spec fn spec_text_line(
    colors: bool,
    include_thread: bool,
    include_module: bool,
    include_caller: bool,
    rec: RecordView,
    ts: Seq<char>,
) -> Seq<char> {
    ts + " ["@ + spec_level_marker(rec.level, colors) + "]:"@ + spec_thread_section(
        include_thread,
        rec.thread,
    ) + spec_module_section(include_module, rec.module) + spec_caller_section(
        include_caller,
        rec.caller,
    ) + " "@ + rec.message + spec_meta_section(rec.metadata)
}

/// Appends the metadata items of `meta`, joined by `, `, to `out`.
fn append_meta_items(out: &mut String, meta: &crate::kv::KvMap<String>)
    requires
        meta@.len() > 0,
    ensures
        final(out)@ == old(out)@ + spec_meta_items(meta@, meta@.len() as int),
{
    let n = meta.len();
    let mut i: usize = 0;
    proof {
        assert(old(out)@ + spec_meta_items(meta@, 0) =~= old(out)@);
    }
    while i < n
        invariant
            i <= n,
            n == meta@.len(),
            out@ == old(out)@ + spec_meta_items(meta@, i as int),
        decreases n - i,
    {
        if i > 0 {
            out.append(", ");
        }
        out.append(meta.key_at(i).as_str());
        out.append("=");
        out.append(meta.value_at(i).as_str());
        proof {
            assert(out@ =~= old(out)@ + spec_meta_items(meta@, i + 1));
        }
        i += 1;
    }
}

/// Renders a record as one text line (see [`spec_text_line`]); `ts` is the
/// already-rendered timestamp.
fn render_text_line(
    colors: bool,
    include_thread: bool,
    include_module: bool,
    include_caller: bool,
    record: &LogRecord,
    ts: &str,
) -> (r: String)
    ensures
        r@ == spec_text_line(colors, include_thread, include_module, include_caller, record@, ts@),
{
    let mut out = String::new();
    out.append(ts);
    out.append(" [");
    if colors {
        out.append(Colors::for_level(record.level));
        out.append(padded_name(record.level));
        out.append(Colors::reset());
    } else {
        out.append(padded_name(record.level));
    }
    out.append("]:");
    let ghost head = ts@ + " ["@ + spec_level_marker(record@.level, colors) + "]:"@;
    proof {
        assert(out@ =~= head);
    }
    if include_thread {
        match &record.thread {
            Some(t) => {
                out.append(" [");
                match &t.name {
                    Some(n) => {
                        out.append(n.as_str());
                        out.append(":");
                    },
                    None => {},
                }
                out.append(t.id.as_str());
                out.append("]");
            },
            None => {},
        }
    }
    let ghost s1 = head + spec_thread_section(include_thread, record@.thread);
    proof {
        assert(out@ =~= s1);
    }
    if include_module {
        match &record.module {
            Some(m) => {
                out.append(" [");
                out.append(m.as_str());
                out.append("]");
            },
            None => {},
        }
    }
    let ghost s2 = s1 + spec_module_section(include_module, record@.module);
    proof {
        assert(out@ =~= s2);
    }
    if include_caller {
        match record.caller {
            Some(c) => {
                out.append(" [");
                out.append(c.file);
                out.append(":");
                let line = u32_to_dec(c.line);
                out.append(line.as_str());
                out.append("]");
            },
            None => {},
        }
    }
    let ghost s3 = s2 + spec_caller_section(include_caller, record@.caller);
    proof {
        assert(out@ =~= s3);
    }
    out.append(" ");
    out.append(record.message.as_str());
    if record.metadata.len() > 0 {
        out.append(" [");
        append_meta_items(&mut out, &record.metadata);
        out.append("]");
    }
    proof {
        assert(out@ =~= s3 + " "@ + record@.message + spec_meta_section(record@.metadata));
        assert(out@ =~= spec_text_line(
            colors,
            include_thread,
            include_module,
            include_caller,
            record@,
            ts@,
        ));
    }
    out
}

/// Text formatter with optional colors.
#[derive(Debug, Clone)]
pub struct TextFormatter {
    /// Whether to include colors in output.
    pub colors: bool,
    /// Date/time layout for the timestamp.
    pub datetime_format: String,
    /// Whether to include caller information.
    pub include_caller: bool,
    /// Whether to include thread information.
    pub include_thread: bool,
    /// Whether to include module information.
    pub include_module: bool,
}

impl TextFormatter {
    /// Creates a text formatter: colors on, `%Y-%m-%d %H:%M:%S` timestamps,
    /// no caller, thread or module information.
    pub fn new() -> (r: Self)
        ensures
            r.colors,
            r.datetime_format@ == "%Y-%m-%d %H:%M:%S"@,
            !r.include_caller,
            !r.include_thread,
            !r.include_module,
    {
        let mut datetime_format = String::new();
        datetime_format.append("%Y-%m-%d %H:%M:%S");
        proof {
            assert(datetime_format@ =~= "%Y-%m-%d %H:%M:%S"@);
        }
        TextFormatter {
            colors: true,
            datetime_format,
            include_caller: false,
            include_thread: false,
            include_module: false,
        }
    }

    /// Sets whether to use colors.
    pub fn with_colors(self, colors: bool) -> (r: Self)
        ensures
            r == (TextFormatter { colors, ..self }),
    {
        TextFormatter { colors, ..self }
    }

    /// Sets the datetime layout.
    pub fn with_datetime_format(self, format: &str) -> (r: Self)
        ensures
            r.datetime_format@ == format@,
            r == (TextFormatter { datetime_format: r.datetime_format, ..self }),
    {
        let mut f = String::new();
        f.append(format);
        proof {
            assert(f@ =~= format@);
        }
        TextFormatter { datetime_format: f, ..self }
    }

    /// Sets whether to include caller information.
    pub fn with_caller(self, enabled: bool) -> (r: Self)
        ensures
            r == (TextFormatter { include_caller: enabled, ..self }),
    {
        TextFormatter { include_caller: enabled, ..self }
    }

    /// Sets whether to include thread information.
    pub fn with_thread(self, enabled: bool) -> (r: Self)
        ensures
            r == (TextFormatter { include_thread: enabled, ..self }),
    {
        TextFormatter { include_thread: enabled, ..self }
    }

    /// Sets whether to include module information.
    pub fn with_module(self, enabled: bool) -> (r: Self)
        ensures
            r == (TextFormatter { include_module: enabled, ..self }),
    {
        TextFormatter { include_module: enabled, ..self }
    }

    /// Whether this formatter emits colors.
    pub fn supports_colors(&self) -> (r: bool)
        ensures
            r == self.colors,
    {
        self.colors
    }

    /// Renders `record` with the timestamp already rendered as `ts`.
    pub fn format_with_timestamp(&self, record: &LogRecord, ts: &str) -> (r: String)
        ensures
            r@ == spec_text_line(
                self.colors,
                self.include_thread,
                self.include_module,
                self.include_caller,
                record@,
                ts@,
            ),
    {
        render_text_line(
            self.colors,
            self.include_thread,
            self.include_module,
            self.include_caller,
            record,
            ts,
        )
    }

    /// Renders `record`, rendering its timestamp with this formatter's
    /// datetime layout in local time.
    pub fn format(&self, record: &LogRecord) -> (r: String)
        ensures
            exists|ts: Seq<char>|
                r@ == spec_text_line(
                    self.colors,
                    self.include_thread,
                    self.include_module,
                    self.include_caller,
                    record@,
                    ts,
                ),
    {
        let ts = render_local_time(record.timestamp, self.datetime_format.as_str());
        let r = self.format_with_timestamp(record, ts.as_str());
        proof {
            assert(r@ == spec_text_line(
                self.colors,
                self.include_thread,
                self.include_module,
                self.include_caller,
                record@,
                ts@,
            ));
        }
        r
    }
}

impl Default for TextFormatter {
    fn default() -> (r: Self)
        ensures
            r.colors,
            r.datetime_format@ == "%Y-%m-%d %H:%M:%S"@,
            !r.include_caller,
            !r.include_thread,
            !r.include_module,
    {
        Self::new()
    }
}

/// Plain text formatter without colors.
#[derive(Debug, Clone)]
pub struct PlainFormatter {
    /// Date/time layout for the timestamp.
    pub datetime_format: String,
    /// Whether to include caller information.
    pub include_caller: bool,
    /// Whether to include thread information.
    pub include_thread: bool,
    /// Whether to include module information.
    pub include_module: bool,
}

impl PlainFormatter {
    /// Creates a plain formatter: `%Y-%m-%d %H:%M:%S` timestamps, no caller,
    /// thread or module information.
    pub fn new() -> (r: Self)
        ensures
            r.datetime_format@ == "%Y-%m-%d %H:%M:%S"@,
            !r.include_caller,
            !r.include_thread,
            !r.include_module,
    {
        let mut datetime_format = String::new();
        datetime_format.append("%Y-%m-%d %H:%M:%S");
        proof {
            assert(datetime_format@ =~= "%Y-%m-%d %H:%M:%S"@);
        }
        PlainFormatter {
            datetime_format,
            include_caller: false,
            include_thread: false,
            include_module: false,
        }
    }

    /// Sets the datetime layout.
    pub fn with_datetime_format(self, format: &str) -> (r: Self)
        ensures
            r.datetime_format@ == format@,
            r == (PlainFormatter { datetime_format: r.datetime_format, ..self }),
    {
        let mut f = String::new();
        f.append(format);
        proof {
            assert(f@ =~= format@);
        }
        PlainFormatter { datetime_format: f, ..self }
    }

    /// Sets whether to include caller information.
    pub fn with_caller(self, enabled: bool) -> (r: Self)
        ensures
            r == (PlainFormatter { include_caller: enabled, ..self }),
    {
        PlainFormatter { include_caller: enabled, ..self }
    }

    /// Sets whether to include thread information.
    pub fn with_thread(self, enabled: bool) -> (r: Self)
        ensures
            r == (PlainFormatter { include_thread: enabled, ..self }),
    {
        PlainFormatter { include_thread: enabled, ..self }
    }

    /// Sets whether to include module information.
    pub fn with_module(self, enabled: bool) -> (r: Self)
        ensures
            r == (PlainFormatter { include_module: enabled, ..self }),
    {
        PlainFormatter { include_module: enabled, ..self }
    }

    /// Renders `record` with the timestamp already rendered as `ts`.
    pub fn format_with_timestamp(&self, record: &LogRecord, ts: &str) -> (r: String)
        ensures
            r@ == spec_text_line(
                false,
                self.include_thread,
                self.include_module,
                self.include_caller,
                record@,
                ts@,
            ),
    {
        render_text_line(
            false,
            self.include_thread,
            self.include_module,
            self.include_caller,
            record,
            ts,
        )
    }

    /// Renders `record`, rendering its timestamp with this formatter's
    /// datetime layout in local time.
    pub fn format(&self, record: &LogRecord) -> (r: String)
        ensures
            exists|ts: Seq<char>|
                r@ == spec_text_line(
                    false,
                    self.include_thread,
                    self.include_module,
                    self.include_caller,
                    record@,
                    ts,
                ),
    {
        let ts = render_local_time(record.timestamp, self.datetime_format.as_str());
        let r = self.format_with_timestamp(record, ts.as_str());
        proof {
            assert(r@ == spec_text_line(
                false,
                self.include_thread,
                self.include_module,
                self.include_caller,
                record@,
                ts@,
            ));
        }
        r
    }
}

impl Default for PlainFormatter {
    fn default() -> (r: Self)
        ensures
            r.datetime_format@ == "%Y-%m-%d %H:%M:%S"@,
            !r.include_caller,
            !r.include_thread,
            !r.include_module,
    {
        Self::new()
    }
}

/// One JSON metadata member, rendered `"key":"value"` with JSON escaping.
pub open spec fn spec_json_meta_item(e: (Seq<char>, Seq<char>)) -> Seq<char> {
    json_str_of(e.0) + ":"@ + json_str_of(e.1)
}

/// The first `n` JSON metadata members, joined by `,`.
pub open spec fn spec_json_meta_items(meta: Seq<(Seq<char>, Seq<char>)>, n: int) -> Seq<char>
    decreases n,
{
    if n <= 0 {
        Seq::<char>::empty()
    } else if n == 1 {
        spec_json_meta_item(meta[0])
    } else {
        spec_json_meta_items(meta, n - 1) + ","@ + spec_json_meta_item(meta[n - 1])
    }
}

/// The member separator of a JSON line.
pub open spec fn spec_json_sep(pretty: bool) -> Seq<char> {
    if pretty {
        ",\n  "@
    } else {
        ","@
    }
}

/// The name/value separator of a JSON line.
pub open spec fn spec_json_colon(pretty: bool) -> Seq<char> {
    if pretty {
        ": "@
    } else {
        ":"@
    }
}

/// The module member of a JSON line, empty when absent or not requested.
pub open spec fn spec_json_module_section(
    pretty: bool,
    on: bool,
    module: Option<Seq<char>>,
) -> Seq<char> {
    match module {
        Some(m) => if on {
            spec_json_sep(pretty) + "\"module\""@ + spec_json_colon(pretty) + json_str_of(m)
        } else {
            Seq::<char>::empty()
        },
        None => Seq::<char>::empty(),
    }
}

/// The caller member of a JSON line, empty when absent or not requested. The
/// caller itself is a compact object with file, line and module.
pub open spec fn spec_json_caller_section(
    pretty: bool,
    on: bool,
    caller: Option<crate::record::CallerView>,
) -> Seq<char> {
    match caller {
        Some(c) => if on {
            spec_json_sep(pretty) + "\"caller\""@ + spec_json_colon(pretty) + "{\"file\":"@
                + json_str_of(c.file) + ",\"line\":"@ + spec_dec(c.line as nat) + ",\"module\":"@
                + (match c.module {
                Some(m) => json_str_of(m),
                None => "null"@,
            }) + "}"@
        } else {
            Seq::<char>::empty()
        },
        None => Seq::<char>::empty(),
    }
}

/// The thread member of a JSON line, empty when absent or not requested. The
/// thread itself is a compact object with id and name.
pub open spec fn spec_json_thread_section(
    pretty: bool,
    on: bool,
    thread: Option<ThreadView>,
) -> Seq<char> {
    match thread {
        Some(t) => if on {
            spec_json_sep(pretty) + "\"thread\""@ + spec_json_colon(pretty) + "{\"id\":"@
                + json_str_of(t.id) + ",\"name\":"@ + (match t.name {
                Some(n) => json_str_of(n),
                None => "null"@,
            }) + "}"@
        } else {
            Seq::<char>::empty()
        },
        None => Seq::<char>::empty(),
    }
}

/// The metadata member of a JSON line, a compact object of escaped pairs,
/// empty when the record has no metadata.
pub open spec fn spec_json_meta_section(pretty: bool, meta: Seq<(Seq<char>, Seq<char>)>) -> Seq<
    char,
> {
    if meta.len() > 0 {
        spec_json_sep(pretty) + "\"metadata\""@ + spec_json_colon(pretty) + "{"@
            + spec_json_meta_items(meta, meta.len() as int) + "}"@
    } else {
        Seq::<char>::empty()
    }
}

/// The JSON rendering of a record: one object whose members are the
/// timestamp, level and message, then the module, caller, thread and metadata
/// where present and requested. When `pretty` is set, each top-level member
/// stands on its own two-space-indented line; nested objects stay compact.
pub open spec fn spec_json_line(
    pretty: bool,
    include_module: bool,
    include_caller: bool,
    include_thread: bool,
    rec: RecordView,
    ts: Seq<char>,
) -> Seq<char> {
    (if pretty {
        "{\n  "@
    } else {
        "{"@
    }) + "\"timestamp\""@ + spec_json_colon(pretty) + json_str_of(ts) + spec_json_sep(pretty)
        + "\"level\""@ + spec_json_colon(pretty) + json_str_of(rec.level.spec_name())
        + spec_json_sep(pretty) + "\"message\""@ + spec_json_colon(pretty) + json_str_of(
        rec.message,
    ) + spec_json_module_section(pretty, include_module, rec.module) + spec_json_caller_section(
        pretty,
        include_caller,
        rec.caller,
    ) + spec_json_thread_section(pretty, include_thread, rec.thread) + spec_json_meta_section(
        pretty,
        rec.metadata,
    ) + (if pretty {
        "\n}"@
    } else {
        "}"@
    })
}

/// Appends the JSON metadata members of `meta`, joined by `,`, to `out`.
fn append_json_meta_items(out: &mut String, meta: &crate::kv::KvMap<String>)
    requires
        meta@.len() > 0,
    ensures
        final(out)@ == old(out)@ + spec_json_meta_items(meta@, meta@.len() as int),
{
    let n = meta.len();
    let mut i: usize = 0;
    proof {
        assert(old(out)@ + spec_json_meta_items(meta@, 0) =~= old(out)@);
    }
    while i < n
        invariant
            i <= n,
            n == meta@.len(),
            out@ == old(out)@ + spec_json_meta_items(meta@, i as int),
        decreases n - i,
    {
        if i > 0 {
            out.append(",");
        }
        let k = json_quote(meta.key_at(i).as_str());
        out.append(k.as_str());
        out.append(":");
        let v = json_quote(meta.value_at(i).as_str());
        out.append(v.as_str());
        proof {
            assert(out@ =~= old(out)@ + spec_json_meta_items(meta@, i + 1));
        }
        i += 1;
    }
}

/// JSON formatter for structured logging.
#[derive(Debug, Clone)]
pub struct JsonFormatter {
    /// Whether to spread the top-level members over separate lines.
    pub pretty: bool,
    /// Date/time layout for the timestamp.
    pub datetime_format: String,
    /// Whether to include caller information.
    pub include_caller: bool,
    /// Whether to include thread information.
    pub include_thread: bool,
    /// Whether to include module information.
    pub include_module: bool,
}

impl JsonFormatter {
    /// Creates a JSON formatter: compact, `%Y-%m-%dT%H:%M:%S%.3fZ`
    /// timestamps, caller, thread and module information all included.
    pub fn new() -> (r: Self)
        ensures
            !r.pretty,
            r.datetime_format@ == "%Y-%m-%dT%H:%M:%S%.3fZ"@,
            r.include_caller,
            r.include_thread,
            r.include_module,
    {
        let mut datetime_format = String::new();
        datetime_format.append("%Y-%m-%dT%H:%M:%S%.3fZ");
        proof {
            assert(datetime_format@ =~= "%Y-%m-%dT%H:%M:%S%.3fZ"@);
        }
        JsonFormatter {
            pretty: false,
            datetime_format,
            include_caller: true,
            include_thread: true,
            include_module: true,
        }
    }

    /// Sets whether to spread the top-level members over separate lines.
    pub fn with_pretty(self, pretty: bool) -> (r: Self)
        ensures
            r == (JsonFormatter { pretty, ..self }),
    {
        JsonFormatter { pretty, ..self }
    }

    /// Sets the datetime layout.
    pub fn with_datetime_format(self, format: &str) -> (r: Self)
        ensures
            r.datetime_format@ == format@,
            r == (JsonFormatter { datetime_format: r.datetime_format, ..self }),
    {
        let mut f = String::new();
        f.append(format);
        proof {
            assert(f@ =~= format@);
        }
        JsonFormatter { datetime_format: f, ..self }
    }

    /// Sets whether to include caller information.
    pub fn with_caller(self, enabled: bool) -> (r: Self)
        ensures
            r == (JsonFormatter { include_caller: enabled, ..self }),
    {
        JsonFormatter { include_caller: enabled, ..self }
    }

    /// Sets whether to include thread information.
    pub fn with_thread(self, enabled: bool) -> (r: Self)
        ensures
            r == (JsonFormatter { include_thread: enabled, ..self }),
    {
        JsonFormatter { include_thread: enabled, ..self }
    }

    /// Sets whether to include module information.
    pub fn with_module(self, enabled: bool) -> (r: Self)
        ensures
            r == (JsonFormatter { include_module: enabled, ..self }),
    {
        JsonFormatter { include_module: enabled, ..self }
    }

    /// Renders `record` with the timestamp already rendered as `ts`.
    pub fn format_with_timestamp(&self, record: &LogRecord, ts: &str) -> (r: String)
        ensures
            r@ == spec_json_line(
                self.pretty,
                self.include_module,
                self.include_caller,
                self.include_thread,
                record@,
                ts@,
            ),
    {
        let mut out = String::new();
        if self.pretty {
            out.append("{\n  ");
        } else {
            out.append("{");
        }
        out.append("\"timestamp\"");
        self.append_colon(&mut out);
        let q = json_quote(ts);
        out.append(q.as_str());
        self.append_sep(&mut out);
        out.append("\"level\"");
        self.append_colon(&mut out);
        let q = json_quote(record.level.as_str());
        out.append(q.as_str());
        self.append_sep(&mut out);
        out.append("\"message\"");
        self.append_colon(&mut out);
        let q = json_quote(record.message.as_str());
        out.append(q.as_str());
        let ghost head = (if self.pretty {
            "{\n  "@
        } else {
            "{"@
        }) + "\"timestamp\""@ + spec_json_colon(self.pretty) + json_str_of(ts@) + spec_json_sep(
            self.pretty,
        ) + "\"level\""@ + spec_json_colon(self.pretty) + json_str_of(record@.level.spec_name())
            + spec_json_sep(self.pretty) + "\"message\""@ + spec_json_colon(self.pretty)
            + json_str_of(record@.message);
        proof {
            assert(out@ =~= head);
        }
        self.append_module_member(&mut out, record);
        self.append_caller_member(&mut out, record);
        self.append_thread_member(&mut out, record);
        self.append_meta_member(&mut out, record);
        if self.pretty {
            out.append("\n}");
        } else {
            out.append("}");
        }
        proof {
            assert(out@ =~= spec_json_line(
                self.pretty,
                self.include_module,
                self.include_caller,
                self.include_thread,
                record@,
                ts@,
            ));
        }
        out
    }

    /// Appends the module member, if requested and present.
    fn append_module_member(&self, out: &mut String, record: &LogRecord)
        ensures
            final(out)@ == old(out)@ + spec_json_module_section(
                self.pretty,
                self.include_module,
                record@.module,
            ),
    {
        let ghost start = out@;
        if self.include_module {
            match &record.module {
                Some(m) => {
                    self.append_sep(out);
                    out.append("\"module\"");
                    self.append_colon(out);
                    let q = json_quote(m.as_str());
                    out.append(q.as_str());
                },
                None => {},
            }
        }
        proof {
            assert(out@ =~= start + spec_json_module_section(
                self.pretty,
                self.include_module,
                record@.module,
            ));
        }
    }

    /// Appends the caller member, if requested and present.
    fn append_caller_member(&self, out: &mut String, record: &LogRecord)
        ensures
            final(out)@ == old(out)@ + spec_json_caller_section(
                self.pretty,
                self.include_caller,
                record@.caller,
            ),
    {
        let ghost start = out@;
        if self.include_caller {
            match record.caller {
                Some(c) => {
                    self.append_sep(out);
                    out.append("\"caller\"");
                    self.append_colon(out);
                    out.append("{\"file\":");
                    let q = json_quote(c.file);
                    out.append(q.as_str());
                    out.append(",\"line\":");
                    let line = u32_to_dec(c.line);
                    out.append(line.as_str());
                    out.append(",\"module\":");
                    match c.module {
                        Some(m) => {
                            let q = json_quote(m);
                            out.append(q.as_str());
                        },
                        None => {
                            out.append("null");
                        },
                    }
                    out.append("}");
                },
                None => {},
            }
        }
        proof {
            assert(out@ =~= start + spec_json_caller_section(
                self.pretty,
                self.include_caller,
                record@.caller,
            ));
        }
    }

    /// Appends the thread member, if requested and present.
    fn append_thread_member(&self, out: &mut String, record: &LogRecord)
        ensures
            final(out)@ == old(out)@ + spec_json_thread_section(
                self.pretty,
                self.include_thread,
                record@.thread,
            ),
    {
        let ghost start = out@;
        if self.include_thread {
            match &record.thread {
                Some(t) => {
                    self.append_sep(out);
                    out.append("\"thread\"");
                    self.append_colon(out);
                    out.append("{\"id\":");
                    let q = json_quote(t.id.as_str());
                    out.append(q.as_str());
                    out.append(",\"name\":");
                    match &t.name {
                        Some(n) => {
                            let q = json_quote(n.as_str());
                            out.append(q.as_str());
                        },
                        None => {
                            out.append("null");
                        },
                    }
                    out.append("}");
                },
                None => {},
            }
        }
        proof {
            assert(out@ =~= start + spec_json_thread_section(
                self.pretty,
                self.include_thread,
                record@.thread,
            ));
        }
    }

    /// Appends the metadata member, if the record has metadata.
    fn append_meta_member(&self, out: &mut String, record: &LogRecord)
        ensures
            final(out)@ == old(out)@ + spec_json_meta_section(self.pretty, record@.metadata),
    {
        let ghost start = out@;
        if record.metadata.len() > 0 {
            self.append_sep(out);
            out.append("\"metadata\"");
            self.append_colon(out);
            out.append("{");
            append_json_meta_items(out, &record.metadata);
            out.append("}");
        }
        proof {
            assert(out@ =~= start + spec_json_meta_section(self.pretty, record@.metadata));
        }
    }

    /// Appends the member separator for this formatter's layout.
    fn append_sep(&self, out: &mut String)
        ensures
            final(out)@ == old(out)@ + (if self.pretty {
                ",\n  "@
            } else {
                ","@
            }),
    {
        if self.pretty {
            out.append(",\n  ");
        } else {
            out.append(",");
        }
    }

    /// Appends the name/value separator for this formatter's layout.
    fn append_colon(&self, out: &mut String)
        ensures
            final(out)@ == old(out)@ + (if self.pretty {
                ": "@
            } else {
                ":"@
            }),
    {
        if self.pretty {
            out.append(": ");
        } else {
            out.append(":");
        }
    }

    /// Renders `record`, rendering its timestamp with this formatter's
    /// datetime layout in local time.
    pub fn format(&self, record: &LogRecord) -> (r: String)
        ensures
            exists|ts: Seq<char>|
                r@ == spec_json_line(
                    self.pretty,
                    self.include_module,
                    self.include_caller,
                    self.include_thread,
                    record@,
                    ts,
                ),
    {
        let ts = render_local_time(record.timestamp, self.datetime_format.as_str());
        let r = self.format_with_timestamp(record, ts.as_str());
        proof {
            assert(r@ == spec_json_line(
                self.pretty,
                self.include_module,
                self.include_caller,
                self.include_thread,
                record@,
                ts@,
            ));
        }
        r
    }
}

impl Default for JsonFormatter {
    fn default() -> (r: Self)
        ensures
            !r.pretty,
            r.datetime_format@ == "%Y-%m-%dT%H:%M:%S%.3fZ"@,
            r.include_caller,
            r.include_thread,
            r.include_module,
    {
        Self::new()
    }
}

/// A formatter of one of the three output formats.
#[derive(Debug, Clone)]
pub enum FormatterKind {
    /// Text with optional colors.
    Text(TextFormatter),
    /// Structured JSON.
    Json(JsonFormatter),
    /// Plain text.
    Plain(PlainFormatter),
}

/// The rendering of `rec` by the formatter `f`, with the timestamp already
/// rendered as `ts`.
pub open spec fn spec_formatted(f: FormatterKind, rec: RecordView, ts: Seq<char>) -> Seq<char> {
    match f {
        FormatterKind::Text(t) => spec_text_line(
            t.colors,
            t.include_thread,
            t.include_module,
            t.include_caller,
            rec,
            ts,
        ),
        FormatterKind::Json(j) => spec_json_line(
            j.pretty,
            j.include_module,
            j.include_caller,
            j.include_thread,
            rec,
            ts,
        ),
        FormatterKind::Plain(p) => spec_text_line(
            false,
            p.include_thread,
            p.include_module,
            p.include_caller,
            rec,
            ts,
        ),
    }
}

impl FormatterKind {
    /// Renders `record` with the timestamp already rendered as `ts`.
    pub fn format_with_timestamp(&self, record: &LogRecord, ts: &str) -> (r: String)
        ensures
            r@ == spec_formatted(*self, record@, ts@),
    {
        match self {
            FormatterKind::Text(t) => t.format_with_timestamp(record, ts),
            FormatterKind::Json(j) => j.format_with_timestamp(record, ts),
            FormatterKind::Plain(p) => p.format_with_timestamp(record, ts),
        }
    }

    /// Renders `record`, rendering its timestamp with the formatter's
    /// datetime layout in local time.
    pub fn format(&self, record: &LogRecord) -> (r: String)
        ensures
            exists|ts: Seq<char>| r@ == spec_formatted(*self, record@, ts),
    {
        let ts = render_local_time(record.timestamp, self.layout());
        let r = self.format_with_timestamp(record, ts.as_str());
        proof {
            assert(r@ == spec_formatted(*self, record@, ts@));
        }
        r
    }

    /// The formatter's datetime layout.
    fn layout(&self) -> (r: &str)
        ensures
            r@ == match *self {
                FormatterKind::Text(t) => t.datetime_format@,
                FormatterKind::Json(j) => j.datetime_format@,
                FormatterKind::Plain(p) => p.datetime_format@,
            },
    {
        match self {
            FormatterKind::Text(t) => t.datetime_format.as_str(),
            FormatterKind::Json(j) => j.datetime_format.as_str(),
            FormatterKind::Plain(p) => p.datetime_format.as_str(),
        }
    }
}

/// The line the dispatcher's formatter renders for a record, given the
/// configuration fields the formatter was built from (module information is
/// always included): a text line with the configured colors, a compact JSON
/// line, or a plain text line.
pub open spec fn spec_rendered(
    format: OutputFormat,
    colors: bool,
    include_caller: bool,
    include_thread: bool,
    rec: RecordView,
    ts: Seq<char>,
) -> Seq<char> {
    match format {
        OutputFormat::Text => spec_text_line(colors, include_thread, true, include_caller, rec, ts),
        OutputFormat::Json => spec_json_line(false, true, include_caller, include_thread, rec, ts),
        OutputFormat::Plain => spec_text_line(false, include_thread, true, include_caller, rec, ts),
    }
}

/// Creates a formatter for the given output format, mirroring the
/// configuration fields that each formatter understands.
pub fn create_formatter(
    format: OutputFormat,
    colors: bool,
    datetime_format: &str,
    include_caller: bool,
    include_thread: bool,
    include_module: bool,
) -> (r: FormatterKind)
    ensures
        format == OutputFormat::Text ==> (r matches FormatterKind::Text(t) && t.colors == colors
            && t.datetime_format@ == datetime_format@ && t.include_caller == include_caller
            && t.include_thread == include_thread && t.include_module == include_module),
        format == OutputFormat::Json ==> (r matches FormatterKind::Json(j) && !j.pretty
            && j.datetime_format@ == datetime_format@ && j.include_caller == include_caller
            && j.include_thread == include_thread && j.include_module == include_module),
        format == OutputFormat::Plain ==> (r matches FormatterKind::Plain(p) && p.datetime_format@
            == datetime_format@ && p.include_caller == include_caller && p.include_thread
            == include_thread && p.include_module == include_module),
{
    match format {
        OutputFormat::Text => FormatterKind::Text(
            TextFormatter::new().with_colors(colors).with_datetime_format(
                datetime_format,
            ).with_caller(include_caller).with_thread(include_thread).with_module(include_module),
        ),
        OutputFormat::Json => FormatterKind::Json(
            JsonFormatter::new().with_datetime_format(datetime_format).with_caller(
                include_caller,
            ).with_thread(include_thread).with_module(include_module),
        ),
        OutputFormat::Plain => FormatterKind::Plain(
            PlainFormatter::new().with_datetime_format(datetime_format).with_caller(
                include_caller,
            ).with_thread(include_thread).with_module(include_module),
        ),
    }
}

} // verus!
