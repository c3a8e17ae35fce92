//! An embeddable logging engine: callers emit leveled records, the engine
//! filters them against global and per-module thresholds, formats them, and
//! delivers them to console and rotating-file sinks.
//!
//! The core is pure: writers record their output as explicit effects (console
//! lines and file operations) instead of touching the process's streams or the
//! file system, and every function that depends on the clock takes the time as
//! an argument or obtains it through a small trusted layer. A thin unverified
//! shell can replay the effects against the real world.

pub mod config;
pub mod error;
pub mod format;
pub mod kv;
pub mod laws;
pub mod legacy;
pub mod level;
pub mod logger;
pub mod record;
pub mod registry;
pub mod text;
pub mod time;
pub mod utils;
pub mod writer;

pub use config::{Colors, ConsoleConfig, FileConfig, LoggerConfig, LoggerConfigBuilder, OutputFormat, RotationConfig, RotationFrequency};
pub use error::LoggerError;
pub use format::{create_formatter, FormatterKind, JsonFormatter, PlainFormatter, TextFormatter};
pub use level::LogLevel;
pub use logger::{LevelCounts, LoggerInstance, LoggerStats, PendingQueue};
pub use record::{CallerInfo, LogRecord, ThreadInfo};
pub use registry::Registry;
pub use time::CalendarStamp;
pub use writer::{BackupFile, BufferedWriter, ConsoleLine, ConsoleWriter, Effects, FileOp, FileWriter, LevelFilterWriter, MultiWriter, SinkWriter, Stream};
