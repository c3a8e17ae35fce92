//! Log records: one immutable event with level, message, timestamp and
//! optional context.

use crate::kv::{spec_extend, spec_insert_one, KvMap};
use crate::level::LogLevel;
use vstd::prelude::*;
use vstd::string::StringExecFns;

verus! {

/// Information about the caller of a log statement.
#[derive(Debug, Clone, Copy)]
pub struct CallerInfo {
    /// File path where the log was called.
    pub file: &'static str,
    /// Line number where the log was called.
    pub line: u32,
    /// Module path where the log was called.
    pub module: Option<&'static str>,
}

/// The mathematical value of a [`CallerInfo`].
pub ghost struct CallerView {
    pub file: Seq<char>,
    pub line: u32,
    pub module: Option<Seq<char>>,
}

impl View for CallerInfo {
    type V = CallerView;

    open spec fn view(&self) -> CallerView {
        CallerView {
            file: self.file@,
            line: self.line,
            module: match self.module {
                Some(m) => Some(m@),
                None => None,
            },
        }
    }
}

/// Information about the thread that produced a record.
#[derive(Debug)]
pub struct ThreadInfo {
    /// Thread id, as rendered by the shell that captured it.
    pub id: String,
    /// Thread name, if the thread has one.
    pub name: Option<String>,
}

/// The mathematical value of a [`ThreadInfo`].
pub ghost struct ThreadView {
    pub id: Seq<char>,
    pub name: Option<Seq<char>>,
}

impl View for ThreadInfo {
    type V = ThreadView;

    open spec fn view(&self) -> ThreadView {
        ThreadView {
            id: self.id@,
            name: match self.name {
                Some(ref n) => Some(n@),
                None => None,
            },
        }
    }
}

impl Clone for ThreadInfo {
    /// Clones the thread information, field for field.
    fn clone(&self) -> (r: Self)
        ensures
            r@ == self@,
    {
        let name = match &self.name {
            Some(n) => Some(n.clone()),
            None => None,
        };
        ThreadInfo { id: self.id.clone(), name }
    }
}

/// A complete log record with all metadata.
#[derive(Debug)]
pub struct LogRecord {
    /// Log level.
    pub level: LogLevel,
    /// Log message.
    pub message: String,
    /// Milliseconds since the Unix epoch at which the record was created.
    pub timestamp: u64,
    /// Module where the log originated.
    pub module: Option<String>,
    /// Caller information.
    pub caller: Option<CallerInfo>,
    /// Thread information.
    pub thread: Option<ThreadInfo>,
    /// Custom metadata.
    pub metadata: KvMap<String>,
}

/// The mathematical value of a [`LogRecord`].
pub ghost struct RecordView {
    pub level: LogLevel,
    pub message: Seq<char>,
    pub timestamp: u64,
    pub module: Option<Seq<char>>,
    pub caller: Option<CallerView>,
    pub thread: Option<ThreadView>,
    pub metadata: Seq<(Seq<char>, Seq<char>)>,
}

impl View for LogRecord {
    type V = RecordView;

    open spec fn view(&self) -> RecordView {
        RecordView {
            level: self.level,
            message: self.message@,
            timestamp: self.timestamp,
            module: match self.module {
                Some(ref m) => Some(m@),
                None => None,
            },
            caller: match self.caller {
                Some(c) => Some(c@),
                None => None,
            },
            thread: match self.thread {
                Some(ref t) => Some(t@),
                None => None,
            },
            metadata: self.metadata@,
        }
    }
}

/// The view of an optional caller.
pub open spec fn opt_caller_view(c: Option<CallerInfo>) -> Option<CallerView> {
    match c {
        Some(x) => Some(x@),
        None => None,
    }
}

/// The view of an optional borrowed string.
pub open spec fn opt_str_view(m: Option<&str>) -> Option<Seq<char>> {
    match m {
        Some(x) => Some(x@),
        None => None,
    }
}

/// The view of optional thread information.
pub open spec fn opt_thread_view(t: Option<ThreadInfo>) -> Option<ThreadView> {
    match t {
        Some(x) => Some(x@),
        None => None,
    }
}

impl LogRecord {
    /// Creates a new log record carrying `message` at `level`, stamped with
    /// `timestamp` (milliseconds since the Unix epoch) and no context.
    pub fn new(level: LogLevel, message: &str, timestamp: u64) -> (r: Self)
        ensures
            r@ == (RecordView {
                level,
                message: message@,
                timestamp,
                module: None,
                caller: None,
                thread: None,
                metadata: Seq::<(Seq<char>, Seq<char>)>::empty(),
            }),
    {
        let mut m = String::new();
        m.append(message);
        proof {
            assert(m@ =~= message@);
        }
        let r = LogRecord {
            level,
            message: m,
            timestamp,
            module: None,
            caller: None,
            thread: None,
            metadata: KvMap::new(),
        };
        r
    }

    /// Sets the module information.
    pub fn with_module(self, module: &str) -> (r: Self)
        ensures
            r@ == (RecordView { module: Some(module@), ..self@ }),
    {
        let mut m = String::new();
        m.append(module);
        proof {
            assert(m@ =~= module@);
        }
        LogRecord { module: Some(m), ..self }
    }

    /// Sets the caller information.
    pub fn with_caller(self, caller: CallerInfo) -> (r: Self)
        ensures
            r@ == (RecordView { caller: Some(caller@), ..self@ }),
    {
        LogRecord { caller: Some(caller), ..self }
    }

    /// Sets the thread information.
    pub fn with_thread(self, thread: ThreadInfo) -> (r: Self)
        ensures
            r@ == (RecordView { thread: Some(thread@), ..self@ }),
    {
        LogRecord { thread: Some(thread), ..self }
    }

    /// Adds one entry of custom metadata; an existing key is overwritten.
    pub fn with_metadata(self, key: &str, value: &str) -> (r: Self)
        ensures
            r@ == (RecordView {
                metadata: spec_insert_one(self@.metadata, key@, value@),
                ..self@
            }),
    {
        let mut k = String::new();
        k.append(key);
        let mut v = String::new();
        v.append(value);
        proof {
            assert(k@ =~= key@);
            assert(v@ =~= value@);
        }
        let mut r = self;
        r.metadata.insert(k, v);
        r
    }

    /// Adds every entry of `metadata`, in its insertion order; its entries
    /// overwrite entries already present under the same key.
    pub fn with_metadata_map(self, metadata: &KvMap<String>) -> (r: Self)
        ensures
            r@ == (RecordView { metadata: spec_extend(self@.metadata, metadata@), ..self@ }),
    {
        let mut r = self;
        r.metadata.extend(metadata);
        r
    }
}

} // verus!
