//! Configuration of the logging engine: output format, console and file
//! settings, rotation policy, thresholds and per-module overrides.

use crate::error::LoggerError;
use crate::kv::{spec_lookup, KvMap};
use crate::level::LogLevel;
use crate::text::{spec_has_prefix, str_eq, str_has_prefix};
use vstd::prelude::*;
use vstd::string::StrSliceExecFns;
use vstd::string::StringExecFns;

verus! {

/// Output format for log messages.
#[derive(Debug, Clone, Copy, PartialEq, Eq, Structural)]
pub enum OutputFormat {
    /// Plain text format with colors.
    Text,
    /// JSON structured format.
    Json,
    /// Plain text without colors.
    Plain,
}

/// Rotation frequency for time-based rotation.
#[derive(Debug, Clone, Copy, PartialEq, Eq, Structural)]
pub enum RotationFrequency {
    /// Rotate daily.
    Daily,
    /// Rotate weekly.
    Weekly,
    /// Rotate monthly.
    Monthly,
}

/// Log rotation configuration.
#[derive(Debug, Clone, Copy, PartialEq, Eq, Structural)]
pub enum RotationConfig {
    /// No rotation.
    Disabled,
    /// Rotate once the active file reaches a size.
    Size {
        /// Maximum file size in bytes.
        max_size: u64,
        /// Number of backup files to keep; 0 keeps all of them.
        keep_files: usize,
    },
    /// Rotate once the calendar bucket of the active file's last write
    /// differs from the current one.
    Time {
        /// Rotation frequency.
        frequency: RotationFrequency,
        /// Number of backup files to keep; 0 keeps all of them.
        keep_files: usize,
    },
}

/// Configuration for file output.
#[derive(Debug)]
pub struct FileConfig {
    /// Path of the log file.
    pub path: String,
    /// Whether to append to an existing file or truncate it.
    pub append: bool,
    /// Rotation configuration.
    pub rotation: RotationConfig,
    /// Buffer size for file writes (0 = unbuffered).
    pub buffer_size: usize,
    /// Auto-flush interval in milliseconds (0 = flush after every write).
    pub flush_interval: u64,
}

/// Whether two file configurations agree in every field.
pub open spec fn spec_file_eq(a: FileConfig, b: FileConfig) -> bool {
    a.path@ == b.path@ && a.append == b.append && a.rotation == b.rotation && a.buffer_size
        == b.buffer_size && a.flush_interval == b.flush_interval
}

impl Clone for FileConfig {
    /// Clones the configuration, field for field.
    fn clone(&self) -> (r: Self)
        ensures
            spec_file_eq(r, *self),
    {
        FileConfig {
            path: self.path.clone(),
            append: self.append,
            rotation: self.rotation,
            buffer_size: self.buffer_size,
            flush_interval: self.flush_interval,
        }
    }
}

/// The default file configuration: `app.log`, appended, no rotation, an 8 KiB
/// buffer and a one-second flush interval.
pub open spec fn spec_file_default(c: FileConfig) -> bool {
    c.path@ == "app.log"@ && c.append && c.rotation == RotationConfig::Disabled && c.buffer_size
        == 8192 && c.flush_interval == 1000
}

impl Default for FileConfig {
    fn default() -> (r: Self)
        ensures
            spec_file_default(r),
    {
        let mut path = String::new();
        path.append("app.log");
        proof {
            assert(path@ =~= "app.log"@);
        }
        FileConfig {
            path,
            append: true,
            rotation: RotationConfig::Disabled,
            buffer_size: 8192,
            flush_interval: 1000,
        }
    }
}

/// Configuration for console output.
#[derive(Debug, Clone, Copy, PartialEq, Eq, Structural)]
pub struct ConsoleConfig {
    /// Whether to enable colored output.
    pub colors: bool,
    /// Whether to route errors and warnings to standard error.
    pub use_stderr: bool,
}

impl Default for ConsoleConfig {
    fn default() -> (r: Self)
        ensures
            r.colors && r.use_stderr,
    {
        ConsoleConfig { colors: true, use_stderr: true }
    }
}

/// Main logger configuration.
#[derive(Debug)]
pub struct LoggerConfig {
    /// Minimum log level to output.
    pub level: LogLevel,
    /// Output format.
    pub format: OutputFormat,
    /// Whether to enable console output.
    pub console_enabled: bool,
    /// Console configuration.
    pub console: ConsoleConfig,
    /// Whether to enable file output.
    pub file_enabled: bool,
    /// File configuration.
    pub file: FileConfig,
    /// Whether to enable asynchronous logging.
    pub async_enabled: bool,
    /// Queue capacity for asynchronous logging.
    pub async_buffer_size: usize,
    /// Date/time layout for timestamps.
    pub datetime_format: String,
    /// Module-based log level overrides.
    pub module_filters: KvMap<LogLevel>,
    /// Whether to include caller information (file, line, module).
    pub include_caller: bool,
    /// Whether to include thread information.
    pub include_thread: bool,
    /// Global metadata attached to every record.
    pub metadata: KvMap<String>,
}

/// Whether two configurations agree in every field.
pub open spec fn spec_config_eq(a: LoggerConfig, b: LoggerConfig) -> bool {
    a.level == b.level && a.format == b.format && a.console_enabled == b.console_enabled
        && a.console == b.console && a.file_enabled == b.file_enabled && spec_file_eq(a.file, b.file)
        && a.async_enabled == b.async_enabled && a.async_buffer_size == b.async_buffer_size
        && a.datetime_format@ == b.datetime_format@ && a.module_filters@ == b.module_filters@
        && a.include_caller == b.include_caller && a.include_thread == b.include_thread
        && a.metadata@ == b.metadata@
}

impl Clone for LoggerConfig {
    /// Clones the configuration, field for field.
    fn clone(&self) -> (r: Self)
        ensures
            spec_config_eq(r, *self),
    {
        LoggerConfig {
            level: self.level,
            format: self.format,
            console_enabled: self.console_enabled,
            console: self.console,
            file_enabled: self.file_enabled,
            file: self.file.clone(),
            async_enabled: self.async_enabled,
            async_buffer_size: self.async_buffer_size,
            datetime_format: self.datetime_format.clone(),
            module_filters: self.module_filters.clone(),
            include_caller: self.include_caller,
            include_thread: self.include_thread,
            metadata: self.metadata.clone(),
        }
    }
}

/// The default configuration: info threshold, colored text on the console
/// only, synchronous delivery, no overrides and no metadata.
pub open spec fn spec_config_default(c: LoggerConfig) -> bool {
    c.level == LogLevel::Info && c.format == OutputFormat::Text && c.console_enabled
        && c.console.colors && c.console.use_stderr && !c.file_enabled && spec_file_default(c.file)
        && !c.async_enabled && c.async_buffer_size == 1000 && c.datetime_format@
        == "%Y-%m-%d %H:%M:%S"@ && c.module_filters@ =~= Seq::<(Seq<char>, LogLevel)>::empty()
        && !c.include_caller && !c.include_thread && c.metadata@ =~= Seq::<
        (Seq<char>, Seq<char>),
    >::empty()
}

impl Default for LoggerConfig {
    fn default() -> (r: Self)
        ensures
            spec_config_default(r),
    {
        let mut datetime_format = String::new();
        datetime_format.append("%Y-%m-%d %H:%M:%S");
        proof {
            assert(datetime_format@ =~= "%Y-%m-%d %H:%M:%S"@);
        }
        LoggerConfig {
            level: LogLevel::Info,
            format: OutputFormat::Text,
            console_enabled: true,
            console: ConsoleConfig::default(),
            file_enabled: false,
            file: FileConfig::default(),
            async_enabled: false,
            async_buffer_size: 1000,
            datetime_format,
            module_filters: KvMap::new(),
            include_caller: false,
            include_thread: false,
            metadata: KvMap::new(),
        }
    }
}

/// Whether the configuration can drive a dispatcher: at least one output is
/// enabled, the file path is non-empty when file output is enabled, and the
/// queue capacity is positive when asynchronous delivery is enabled.
pub open spec fn spec_config_valid(c: LoggerConfig) -> bool {
    (c.console_enabled || c.file_enabled) && (c.file_enabled ==> c.file.path@.len() > 0) && (
    c.async_enabled ==> c.async_buffer_size > 0)
}

/// Whether `key` covers the module path `module`: either they are equal, or
/// `module` lies below `key`, that is, it begins with `key` followed by the
/// `::` separator.
pub open spec fn spec_path_matches(key: Seq<char>, module: Seq<char>) -> bool {
    key == module || (spec_has_prefix(module, key) && module.len() >= key.len() + 2 && module[
        key.len() as int] == ':' && module[key.len() as int + 1] == ':')
}

/// The index of the best override among the first `n` filters: a key that
/// covers the module and is as long as any other covering key; among equally
/// long keys the later one wins.
pub open spec fn spec_best_match(
    filters: Seq<(Seq<char>, LogLevel)>,
    module: Seq<char>,
    n: int,
) -> Option<int>
    decreases n,
{
    if n <= 0 {
        None
    } else {
        let prev = spec_best_match(filters, module, n - 1);
        if spec_path_matches(filters[n - 1].0, module) && (match prev {
            Some(p) => filters[p].0.len() <= filters[n - 1].0.len(),
            None => true,
        }) {
            Some(n - 1)
        } else {
            prev
        }
    }
}

/// The level that filters records tagged `module`: the override of the best
/// covering key, or `global` when no key covers the module.
pub open spec fn spec_effective_level(
    filters: Seq<(Seq<char>, LogLevel)>,
    global: LogLevel,
    module: Seq<char>,
) -> LogLevel {
    match spec_best_match(filters, module, filters.len() as int) {
        Some(i) => filters[i].1,
        None => global,
    }
}

/// The best match is a covering key of maximal length, and exists whenever
/// any key covers the module.
pub proof fn lemma_best_match(filters: Seq<(Seq<char>, LogLevel)>, module: Seq<char>, n: int)
    requires
        n <= filters.len(),
    ensures
        match spec_best_match(filters, module, n) {
            Some(i) => 0 <= i < n && spec_path_matches(filters[i].0, module) && (forall|j: int|
                0 <= j < n && spec_path_matches(#[trigger] filters[j].0, module)
                    ==> filters[j].0.len() <= filters[i].0.len()),
            None => forall|j: int|
                0 <= j < n ==> !spec_path_matches(#[trigger] filters[j].0, module),
        },
    decreases n,
{
    if n > 0 {
        lemma_best_match(filters, module, n - 1);
    }
}

impl LoggerConfig {
    /// Creates a new configuration builder.
    pub fn builder() -> (r: LoggerConfigBuilder)
        ensures
            spec_config_default(r.config),
    {
        LoggerConfigBuilder::new()
    }

    /// Validates the configuration: `Ok` exactly when the configuration is
    /// valid, and otherwise the error for the first failed rule.
    pub fn validate(&self) -> (r: Result<(), LoggerError>)
        ensures
            r is Ok <==> spec_config_valid(*self),
            !self.console_enabled && !self.file_enabled ==> (r matches Err(
                LoggerError::Config(m),
            ) && m@ == "At least one output (console or file) must be enabled"@),
            (self.console_enabled || self.file_enabled) && self.file_enabled && self.file.path@.len()
                == 0 ==> (r matches Err(LoggerError::Config(m)) && m@
                == "File path cannot be empty when file logging is enabled"@),
            (self.console_enabled || self.file_enabled) && (self.file_enabled
                ==> self.file.path@.len() > 0) && self.async_enabled && self.async_buffer_size == 0
                ==> (r matches Err(LoggerError::Config(m)) && m@
                == "Async buffer size must be greater than 0"@),
    {
        if !self.console_enabled && !self.file_enabled {
            let mut m = String::new();
            m.append("At least one output (console or file) must be enabled");
            proof {
                assert(m@ =~= "At least one output (console or file) must be enabled"@);
            }
            return Err(LoggerError::Config(m));
        }
        if self.file_enabled && self.file.path.as_str().unicode_len() == 0 {
            let mut m = String::new();
            m.append("File path cannot be empty when file logging is enabled");
            proof {
                assert(m@ =~= "File path cannot be empty when file logging is enabled"@);
            }
            return Err(LoggerError::Config(m));
        }
        if self.async_enabled && self.async_buffer_size == 0 {
            let mut m = String::new();
            m.append("Async buffer size must be greater than 0");
            proof {
                assert(m@ =~= "Async buffer size must be greater than 0"@);
            }
            return Err(LoggerError::Config(m));
        }
        Ok(())
    }

    /// The level that filters records tagged with `module`: the override of
    /// the longest covering key in `module_filters`, or the global level when
    /// no key covers the module.
    pub fn effective_level(&self, module: &str) -> (r: LogLevel)
        ensures
            r == spec_effective_level(self.module_filters@, self.level, module@),
            (exists|i: int|
                0 <= i < self.module_filters@.len() && spec_path_matches(
                    self.module_filters@[i].0,
                    module@,
                )) ==> (exists|i: int|
                0 <= i < self.module_filters@.len() && spec_path_matches(
                    self.module_filters@[i].0,
                    module@,
                ) && r == self.module_filters@[i].1 && (forall|j: int|
                    0 <= j < self.module_filters@.len() && spec_path_matches(
                        #[trigger] self.module_filters@[j].0,
                        module@,
                    ) ==> self.module_filters@[j].0.len() <= self.module_filters@[i].0.len())),
            (forall|i: int|
                0 <= i < self.module_filters@.len() ==> !spec_path_matches(
                    #[trigger] self.module_filters@[i].0,
                    module@,
                )) ==> r == self.level,
    {
        let n = self.module_filters.len();
        let mut best: Option<(usize, LogLevel)> = None;
        let mut i: usize = 0;
        while i < n
            invariant
                i <= n,
                n == self.module_filters@.len(),
                spec_best_match(self.module_filters@, module@, i as int) == (match best {
                    Some((b, _)) => Some(b as int),
                    None => None::<int>,
                }),
                match best {
                    Some((b, lv)) => b < i && spec_path_matches(
                        self.module_filters@[b as int].0,
                        module@,
                    ) && lv == self.module_filters@[b as int].1 && (forall|j: int|
                        0 <= j < i && spec_path_matches(
                            #[trigger] self.module_filters@[j].0,
                            module@,
                        ) ==> self.module_filters@[j].0.len()
                            <= self.module_filters@[b as int].0.len()),
                    None => forall|j: int|
                        0 <= j < i ==> !spec_path_matches(
                            #[trigger] self.module_filters@[j].0,
                            module@,
                        ),
                },
            decreases n - i,
        {
            let key = self.module_filters.key_at(i);
            if path_matches(module, key.as_str()) {
                let better = match best {
                    None => true,
                    Some((b, _)) => {
                        let bl = self.module_filters.key_at(b).as_str().unicode_len();
                        key.as_str().unicode_len() >= bl
                    },
                };
                if better {
                    best = Some((i, *self.module_filters.value_at(i)));
                }
            }
            i += 1;
        }
        proof {
            lemma_best_match(self.module_filters@, module@, n as int);
        }
        match best {
            Some((_, lv)) => lv,
            None => self.level,
        }
    }
}

/// Whether `key` covers the module path `module` (see [`spec_path_matches`]).
pub fn path_matches(module: &str, key: &str) -> (r: bool)
    ensures
        r == spec_path_matches(key@, module@),
{
    if str_eq(key, module) {
        return true;
    }
    let kl = key.unicode_len();
    let ml = module.unicode_len();
    if !str_has_prefix(module, key) {
        return false;
    }
    if ml < kl || ml - kl < 2 {
        return false;
    }
    module.get_char(kl) == ':' && module.get_char(kl + 1) == ':'
}

/// Builder for logger configurations.
#[derive(Debug)]
pub struct LoggerConfigBuilder {
    /// The configuration under construction.
    pub config: LoggerConfig,
}

impl LoggerConfigBuilder {
    /// Creates a new configuration builder holding the default configuration.
    pub fn new() -> (r: Self)
        ensures
            spec_config_default(r.config),
    {
        LoggerConfigBuilder { config: LoggerConfig::default() }
    }

    /// Sets the minimum log level.
    pub fn level(self, level: LogLevel) -> (r: Self)
        ensures
            r.config == (LoggerConfig { level, ..self.config }),
    {
        let mut b = self;
        b.config.level = level;
        b
    }

    /// Sets the output format.
    pub fn format(self, format: OutputFormat) -> (r: Self)
        ensures
            r.config == (LoggerConfig { format, ..self.config }),
    {
        let mut b = self;
        b.config.format = format;
        b
    }

    /// Enables or disables console output.
    pub fn console(self, enabled: bool) -> (r: Self)
        ensures
            r.config == (LoggerConfig { console_enabled: enabled, ..self.config }),
    {
        let mut b = self;
        b.config.console_enabled = enabled;
        b
    }

    /// Configures console output.
    pub fn console_config(self, config: ConsoleConfig) -> (r: Self)
        ensures
            r.config == (LoggerConfig { console: config, ..self.config }),
    {
        let mut b = self;
        b.config.console = config;
        b
    }

    /// Enables or disables colored console output.
    pub fn colors(self, enabled: bool) -> (r: Self)
        ensures
            r.config == (LoggerConfig {
                console: ConsoleConfig { colors: enabled, ..self.config.console },
                ..self.config
            }),
    {
        let mut b = self;
        b.config.console.colors = enabled;
        b
    }

    /// Configures standard-error routing for errors and warnings.
    pub fn use_stderr(self, enabled: bool) -> (r: Self)
        ensures
            r.config == (LoggerConfig {
                console: ConsoleConfig { use_stderr: enabled, ..self.config.console },
                ..self.config
            }),
    {
        let mut b = self;
        b.config.console.use_stderr = enabled;
        b
    }

    /// Enables file output with the given path.
    pub fn file(self, path: &str) -> (r: Self)
        ensures
            r.config.file_enabled,
            r.config.file.path@ == path@,
            r.config == (LoggerConfig {
                file_enabled: true,
                file: FileConfig { path: r.config.file.path, ..self.config.file },
                ..self.config
            }),
    {
        let mut b = self;
        b.config.file_enabled = true;
        let mut p = String::new();
        p.append(path);
        proof {
            assert(p@ =~= path@);
        }
        b.config.file.path = p;
        b
    }

    /// Configures file output settings and enables file output.
    pub fn file_config(self, config: FileConfig) -> (r: Self)
        ensures
            r.config == (LoggerConfig { file_enabled: true, file: config, ..self.config }),
    {
        let mut b = self;
        b.config.file_enabled = true;
        b.config.file = config;
        b
    }

    /// Enables file rotation based on size.
    pub fn rotate_by_size(self, max_size: u64, keep_files: usize) -> (r: Self)
        ensures
            r.config == (LoggerConfig {
                file: FileConfig {
                    rotation: RotationConfig::Size { max_size, keep_files },
                    ..self.config.file
                },
                ..self.config
            }),
    {
        let mut b = self;
        b.config.file.rotation = RotationConfig::Size { max_size, keep_files };
        b
    }

    /// Enables file rotation based on time.
    pub fn rotate_by_time(self, frequency: RotationFrequency, keep_files: usize) -> (r: Self)
        ensures
            r.config == (LoggerConfig {
                file: FileConfig {
                    rotation: RotationConfig::Time { frequency, keep_files },
                    ..self.config.file
                },
                ..self.config
            }),
    {
        let mut b = self;
        b.config.file.rotation = RotationConfig::Time { frequency, keep_files };
        b
    }

    /// Enables asynchronous logging with the given queue capacity.
    pub fn async_logging(self, buffer_size: usize) -> (r: Self)
        ensures
            r.config == (LoggerConfig {
                async_enabled: true,
                async_buffer_size: buffer_size,
                ..self.config
            }),
    {
        let mut b = self;
        b.config.async_enabled = true;
        b.config.async_buffer_size = buffer_size;
        b
    }

    /// Sets the datetime layout for timestamps.
    pub fn datetime_format(self, format: &str) -> (r: Self)
        ensures
            r.config.datetime_format@ == format@,
            r.config == (LoggerConfig {
                datetime_format: r.config.datetime_format,
                ..self.config
            }),
    {
        let mut b = self;
        let mut f = String::new();
        f.append(format);
        proof {
            assert(f@ =~= format@);
        }
        b.config.datetime_format = f;
        b
    }

    /// Adds a module-specific log level override.
    pub fn module_filter(self, module: &str, level: LogLevel) -> (r: Self)
        ensures
            r.config.module_filters@ == crate::kv::spec_insert_one(
                self.config.module_filters@,
                module@,
                level,
            ),
            r.config == (LoggerConfig {
                module_filters: r.config.module_filters,
                ..self.config
            }),
    {
        let mut b = self;
        let mut m = String::new();
        m.append(module);
        proof {
            assert(m@ =~= module@);
        }
        b.config.module_filters.insert(m, level);
        b
    }

    /// Enables caller information in log records.
    pub fn include_caller(self, enabled: bool) -> (r: Self)
        ensures
            r.config == (LoggerConfig { include_caller: enabled, ..self.config }),
    {
        let mut b = self;
        b.config.include_caller = enabled;
        b
    }

    /// Enables thread information in log records.
    pub fn include_thread(self, enabled: bool) -> (r: Self)
        ensures
            r.config == (LoggerConfig { include_thread: enabled, ..self.config }),
    {
        let mut b = self;
        b.config.include_thread = enabled;
        b
    }

    /// Adds one entry of global metadata.
    pub fn metadata(self, key: &str, value: &str) -> (r: Self)
        ensures
            r.config.metadata@ == crate::kv::spec_insert_one(self.config.metadata@, key@, value@),
            r.config == (LoggerConfig { metadata: r.config.metadata, ..self.config }),
    {
        let mut b = self;
        let mut k = String::new();
        k.append(key);
        let mut v = String::new();
        v.append(value);
        proof {
            assert(k@ =~= key@);
            assert(v@ =~= value@);
        }
        b.config.metadata.insert(k, v);
        b
    }

    /// Builds the configuration.
    pub fn build(self) -> (r: LoggerConfig)
        ensures
            r == self.config,
    {
        self.config
    }
}

impl Default for LoggerConfigBuilder {
    fn default() -> (r: Self)
        ensures
            spec_config_default(r.config),
    {
        Self::new()
    }
}

/// ANSI color codes for console output.
pub struct Colors;

impl Colors {
    /// Red foreground.
    pub fn red() -> (r: &'static str)
        ensures
            r@ == "\x1b[31m"@,
    {
        "\x1b[31m"
    }

    /// Green foreground.
    pub fn green() -> (r: &'static str)
        ensures
            r@ == "\x1b[32m"@,
    {
        "\x1b[32m"
    }

    /// Yellow foreground.
    pub fn yellow() -> (r: &'static str)
        ensures
            r@ == "\x1b[33m"@,
    {
        "\x1b[33m"
    }

    /// Blue foreground.
    pub fn blue() -> (r: &'static str)
        ensures
            r@ == "\x1b[34m"@,
    {
        "\x1b[34m"
    }

    /// Magenta foreground.
    pub fn magenta() -> (r: &'static str)
        ensures
            r@ == "\x1b[35m"@,
    {
        "\x1b[35m"
    }

    /// Cyan foreground.
    pub fn cyan() -> (r: &'static str)
        ensures
            r@ == "\x1b[36m"@,
    {
        "\x1b[36m"
    }

    /// White foreground.
    pub fn white() -> (r: &'static str)
        ensures
            r@ == "\x1b[37m"@,
    {
        "\x1b[37m"
    }

    /// Reset all attributes.
    pub fn reset() -> (r: &'static str)
        ensures
            r@ == "\x1b[0m"@,
    {
        "\x1b[0m"
    }

    /// Bold attribute.
    pub fn bold() -> (r: &'static str)
        ensures
            r@ == "\x1b[1m"@,
    {
        "\x1b[1m"
    }

    /// Dim attribute.
    pub fn dim() -> (r: &'static str)
        ensures
            r@ == "\x1b[2m"@,
    {
        "\x1b[2m"
    }

    /// The color for a log level.
    pub open spec fn spec_for_level(level: LogLevel) -> Seq<char> {
        match level {
            LogLevel::Error => "\x1b[31m"@,
            LogLevel::Warning => "\x1b[33m"@,
            LogLevel::Info => "\x1b[36m"@,
            LogLevel::Success => "\x1b[32m"@,
            LogLevel::Debug => "\x1b[34m"@,
        }
    }

    /// Gets the color for a log level.
    pub fn for_level(level: LogLevel) -> (r: &'static str)
        ensures
            r@ == Colors::spec_for_level(level),
    {
        match level {
            LogLevel::Error => Colors::red(),
            LogLevel::Warning => Colors::yellow(),
            LogLevel::Info => Colors::cyan(),
            LogLevel::Success => Colors::green(),
            LogLevel::Debug => Colors::blue(),
        }
    }
}

} // verus!
