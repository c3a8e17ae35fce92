//! Tests for the dispatcher and the registry.

use firo_logger::{
    CalendarStamp, Effects, LogLevel, LoggerConfig, LoggerInstance, Registry, SinkWriter,
};

fn stamp() -> CalendarStamp {
    CalendarStamp {
        iso_year: 2024,
        iso_week: 10,
        year: 2024,
        month: 3,
        day_of_month: 7,
    }
}

fn console_config() -> LoggerConfig {
    LoggerConfig::builder().console(true).colors(false).build()
}

fn file_lines(logger: &LoggerInstance) -> Vec<String> {
    let mut lines = Vec::new();
    for w in &logger.writer.writers {
        if let SinkWriter::File(f) = w {
            for b in &f.backups {
                lines.extend(b.lines.iter().cloned());
            }
            lines.extend(f.active_lines.iter().cloned());
        }
    }
    lines
}

#[test]
fn test_logger_creation() {
    let mut fx = Effects::new();
    let config = LoggerConfig::default();
    let mut logger = LoggerInstance::new(config, &mut fx).unwrap();

    assert!(logger.info("Test message", &mut fx).is_ok());
    assert!(logger.flush(&mut fx).is_ok());
}

#[test]
fn test_global_logger_init() {
    let mut reg = Registry::new();
    let mut fx = Effects::new();
    let config = LoggerConfig::builder()
        .level(LogLevel::Debug)
        .console(true)
        .colors(false)
        .build();

    assert!(reg.init(config, &mut fx).is_ok());
    assert!(reg.is_initialized());

    assert!(reg.log_info("Global logger test", &mut fx).is_ok());
    assert!(reg.flush(&mut fx).is_ok());
}

#[test]
fn test_default_initialization() {
    let mut reg = Registry::new();
    let mut fx = Effects::new();
    let _ = reg.init_default(&mut fx);
    reg.log_info("Default init test", &mut fx)
        .expect("Failed to log with default init");
}

#[test]
fn test_basic_api() {
    let mut reg = Registry::new();
    let mut fx = Effects::new();
    let config = LoggerConfig::builder()
        .console(true)
        .colors(false)
        .level(LogLevel::Debug)
        .build();
    let _ = reg.init(config, &mut fx);

    assert!(reg.log_error("Test error", &mut fx).is_ok());
    assert!(reg.log_warning("Test warning", &mut fx).is_ok());
    assert!(reg.log_info("Test info", &mut fx).is_ok());
    assert!(reg.log_success("Test success", &mut fx).is_ok());
    assert!(reg.log_debug("Test debug", &mut fx).is_ok());
}

#[test]
fn test_basic_logging_macros() {
    let mut reg = Registry::new();
    let mut fx = Effects::new();
    let config = LoggerConfig::builder().console(true).colors(false).build();
    reg.init(config, &mut fx).unwrap();

    assert!(reg.log_error("Test error message", &mut fx).is_ok());
    assert!(reg.log_warning("Test warning message", &mut fx).is_ok());
    assert!(reg.log_info("Test info message", &mut fx).is_ok());
    assert!(reg.log_success("Test success message", &mut fx).is_ok());
    assert!(reg.log_debug("Test debug message", &mut fx).is_ok());
}

#[test]
fn test_formatted_logging() {
    let mut reg = Registry::new();
    let mut fx = Effects::new();
    let _ = reg.init_default(&mut fx);

    let user = "alice";
    let count = 42;

    assert!(reg
        .log_info(&format!("User {} processed {} items", user, count), &mut fx)
        .is_ok());
    assert!(reg.log_error(&format!("Error code: {}", 500), &mut fx).is_ok());
}

#[test]
fn test_macro_usage() {
    let mut reg = Registry::new();
    let mut fx = Effects::new();
    let _ = reg.init_default(&mut fx);

    let user = "alice";
    let count = 42;

    assert!(reg
        .log_info(&format!("User {} processed {} items", user, count), &mut fx)
        .is_ok());
    assert!(reg.log_error(&format!("Error code: {}", 500), &mut fx).is_ok());
    assert!(reg
        .log_success("Operation completed successfully", &mut fx)
        .is_ok());
    assert!(reg
        .log_warning(&format!("Resource usage at {}%", 85), &mut fx)
        .is_ok());
    assert!(reg
        .log_debug(&format!("Debug info: {:?}", vec![1, 2, 3]), &mut fx)
        .is_ok());
}

#[test]
fn test_log_macro_with_level() {
    let mut reg = Registry::new();
    let mut fx = Effects::new();
    let config = LoggerConfig::builder().console(true).colors(false).build();
    reg.init(config, &mut fx).unwrap();

    assert!(reg
        .log_with_caller(LogLevel::Error, "Custom level message", None, None, &mut fx)
        .is_ok());
    assert!(reg
        .log_with_caller(
            LogLevel::Info,
            &format!("User {} logged in", "alice"),
            None,
            None,
            &mut fx
        )
        .is_ok());
}

#[test]
fn test_conditional_logging() {
    let mut reg = Registry::new();
    let mut fx = Effects::new();
    let config = LoggerConfig::builder().console(true).colors(false).build();
    reg.init(config, &mut fx).unwrap();

    let debug_enabled = true;
    let debug_disabled = false;

    if debug_enabled {
        let _ = reg.log_debug("Debug is enabled", &mut fx);
    }
    if debug_disabled {
        let _ = reg.log_debug("Debug is disabled", &mut fx);
    }
}

#[test]
fn test_log_once_macro() {
    let mut reg = Registry::new();
    let mut fx = Effects::new();
    let config = LoggerConfig::builder().console(true).colors(false).build();
    reg.init(config, &mut fx).unwrap();

    let mut logged_once = false;
    for _ in 0..5 {
        if !logged_once {
            logged_once = true;
            let _ = reg.log_warning("This should only appear once", &mut fx);
        }
    }
    assert_eq!(reg.stats().unwrap().total_messages, 1);
}

#[test]
fn test_log_at_most_macro() {
    let mut reg = Registry::new();
    let mut fx = Effects::new();
    let config = LoggerConfig::builder().console(true).colors(false).build();
    reg.init(config, &mut fx).unwrap();

    let mut counter = 0;
    for i in 0..10 {
        if counter < 3 {
            counter += 1;
            let _ = reg.log_info(&format!("Message {}", i), &mut fx);
        }
    }
    assert_eq!(reg.stats().unwrap().total_messages, 3);
}

#[test]
fn test_trace_function_macro() {
    let mut reg = Registry::new();
    let mut fx = Effects::new();
    let config = LoggerConfig::builder()
        .console(true)
        .colors(false)
        .level(LogLevel::Debug)
        .build();
    reg.init(config, &mut fx).unwrap();

    let _ = reg.log_debug(&format!("Entering {} with args: {:?}", "test_function", (5, 10)), &mut fx);
    let result = 5 + 10;
    let _ = reg.log_debug(&format!("Exiting {}", "test_function"), &mut fx);
    assert_eq!(result, 15);
}

#[test]
fn test_legacy_static_functions() {
    let mut reg = Registry::new();
    let mut fx = Effects::new();

    firo_logger::legacy::Logger::info(&mut reg, "Legacy info", &mut fx);
    firo_logger::legacy::Logger::error(&mut reg, "Legacy error", &mut fx);
    firo_logger::legacy::Logger::log(&mut reg, "Legacy log", &mut fx);
    firo_logger::legacy::Logger::warning(&mut reg, "Legacy warning", &mut fx);
}

#[test]
fn lib_test_level_filtering() {
    let mut fx = Effects::new();
    let config = LoggerConfig::builder()
        .level(LogLevel::Warning)
        .console(true)
        .colors(false)
        .build();

    let mut logger = LoggerInstance::new(config, &mut fx).unwrap();

    assert!(logger.error("Error", &mut fx).is_ok());
    assert!(logger.warning("Warning", &mut fx).is_ok());
    assert!(logger.info("Info", &mut fx).is_ok());
    assert!(logger.debug("Debug", &mut fx).is_ok());
}

#[test]
fn logger_test_level_filtering() {
    let mut fx = Effects::new();
    let config = LoggerConfig::builder()
        .level(LogLevel::Warning)
        .console(true)
        .colors(false)
        .build();

    let mut logger = LoggerInstance::new(config, &mut fx).unwrap();

    assert!(logger.error("Error message", &mut fx).is_ok());
    assert!(logger.warning("Warning message", &mut fx).is_ok());

    assert!(logger.info("Info message", &mut fx).is_ok());
    assert!(logger.success("Success message", &mut fx).is_ok());
    assert!(logger.debug("Debug message", &mut fx).is_ok());

    // Only the two severe records were delivered.
    assert_eq!(fx.console.len(), 2);
}

#[test]
fn test_logger_stats() {
    let mut fx = Effects::new();
    let config = LoggerConfig::builder().console(true).colors(false).build();

    let mut logger = LoggerInstance::new(config, &mut fx).unwrap();

    logger.error("Error", &mut fx).unwrap();
    logger.warning("Warning", &mut fx).unwrap();
    logger.info("Info", &mut fx).unwrap();

    let stats = logger.stats();
    assert_eq!(stats.total_messages, 3);
    assert_eq!(stats.messages_by_level.get(LogLevel::Error), 1);
    assert_eq!(stats.messages_by_level.get(LogLevel::Warning), 1);
    assert_eq!(stats.messages_by_level.get(LogLevel::Info), 1);
}

#[test]
fn test_statistics() {
    let mut fx = Effects::new();
    let config = LoggerConfig::builder()
        .level(LogLevel::Debug)
        .console(true)
        .colors(false)
        .build();

    let mut logger = LoggerInstance::new(config, &mut fx).unwrap();

    logger.error("Error 1", &mut fx).unwrap();
    logger.error("Error 2", &mut fx).unwrap();
    logger.warning("Warning 1", &mut fx).unwrap();
    logger.info("Info 1", &mut fx).unwrap();

    let logger_stats = logger.stats();
    assert_eq!(logger_stats.total_messages, 4);
    assert_eq!(logger_stats.messages_by_level.get(LogLevel::Error), 2);
    assert_eq!(logger_stats.messages_by_level.get(LogLevel::Warning), 1);
    assert_eq!(logger_stats.messages_by_level.get(LogLevel::Info), 1);
    assert!(logger_stats.start_time.is_some());

    // The total always equals the sum of the per-level counters.
    let by_level = logger_stats.messages_by_level;
    assert_eq!(
        logger_stats.total_messages,
        by_level.get(LogLevel::Error)
            + by_level.get(LogLevel::Warning)
            + by_level.get(LogLevel::Info)
            + by_level.get(LogLevel::Success)
            + by_level.get(LogLevel::Debug)
    );
}

#[test]
fn test_logger_statistics_isolation() {
    let mut fx = Effects::new();
    let mut a = LoggerInstance::new(console_config(), &mut fx).unwrap();
    let b = LoggerInstance::new(console_config(), &mut fx).unwrap();

    a.info("only into a", &mut fx).unwrap();

    assert_eq!(a.stats().total_messages, 1);
    assert_eq!(b.stats().total_messages, 0);
}

#[test]
fn test_module_filtering() {
    let mut fx = Effects::new();
    let mut config = LoggerConfig::builder()
        .level(LogLevel::Warning)
        .console(true)
        .colors(false)
        .build();
    config
        .module_filters
        .insert("test_module".to_string(), LogLevel::Debug);

    let mut logger = LoggerInstance::new(config, &mut fx).unwrap();

    assert!(logger
        .log_event(
            LogLevel::Debug,
            "Debug in test_module",
            None,
            Some("test_module"),
            None,
            0,
            stamp(),
            &mut fx
        )
        .is_ok());

    assert!(logger
        .log_event(
            LogLevel::Debug,
            "Debug in other_module",
            None,
            Some("other_module"),
            None,
            0,
            stamp(),
            &mut fx
        )
        .is_ok());

    // Only the overridden module's debug record was delivered.
    assert_eq!(fx.console.len(), 1);
    assert!(fx.console[0].text.contains("Debug in test_module"));
}

#[test]
fn logger_test_module_filtering() {
    let mut fx = Effects::new();
    let mut config = LoggerConfig::builder()
        .level(LogLevel::Warning)
        .console(true)
        .colors(false)
        .build();
    config
        .module_filters
        .insert("integration_test".to_string(), LogLevel::Debug);

    let mut logger = LoggerInstance::new(config, &mut fx).unwrap();

    assert!(logger
        .log_event(
            LogLevel::Debug,
            "This debug message should appear",
            None,
            Some("integration_test"),
            None,
            0,
            stamp(),
            &mut fx
        )
        .is_ok());
    assert_eq!(fx.console.len(), 1);
}

#[test]
fn test_mixed_scoped_and_global_logging() {
    let mut reg = Registry::new();
    let mut fx = Effects::new();
    reg.init(console_config(), &mut fx).unwrap();

    let scoped = LoggerInstance::new(console_config(), &mut fx).unwrap();
    reg.push_scoped(scoped);
    reg.log_info("through the override", &mut fx).unwrap();

    let popped = reg.pop_scoped().unwrap();
    assert_eq!(popped.stats().total_messages, 1);

    reg.log_info("through the default", &mut fx).unwrap();
    assert_eq!(reg.stats().unwrap().total_messages, 1);
}

#[test]
fn test_logger_instance_direct_usage() {
    let mut fx = Effects::new();
    let mut logger = LoggerInstance::new(console_config(), &mut fx).unwrap();

    logger.info("direct", &mut fx).unwrap();
    assert_eq!(logger.stats().total_messages, 1);
    assert!(logger.flush(&mut fx).is_ok());
}

#[test]
fn test_file_logging() {
    let mut fx = Effects::new();
    let config = LoggerConfig::builder().console(false).file("file_test.log").build();

    let mut logger = LoggerInstance::new(config, &mut fx).unwrap();
    logger.info("File test message", &mut fx).unwrap();
    logger.flush(&mut fx).unwrap();

    let lines = file_lines(&logger);
    assert_eq!(lines.len(), 1);
    assert!(lines[0].contains("File test message"));
}

#[test]
fn test_basic_logging() {
    let mut reg = Registry::new();
    let mut fx = Effects::new();
    let config = LoggerConfig::builder()
        .level(LogLevel::Debug)
        .console(false)
        .file("basic.log")
        .colors(false)
        .build();

    let logger = LoggerInstance::new(config, &mut fx).unwrap();
    reg.push_scoped(logger);

    reg.log_error("Test error message", &mut fx).expect("Failed to log error");
    reg.log_warning("Test warning message", &mut fx).expect("Failed to log warning");
    reg.log_info("Test info message", &mut fx).expect("Failed to log info");
    reg.log_success("Test success message", &mut fx).expect("Failed to log success");
    reg.log_debug("Test debug message", &mut fx).expect("Failed to log debug");

    reg.flush(&mut fx).expect("Failed to flush");
    let logger = reg.pop_scoped().unwrap();

    let content = file_lines(&logger).join("\n");
    assert!(content.contains("Test error message"));
    assert!(content.contains("Test warning message"));
    assert!(content.contains("Test info message"));
    assert!(content.contains("Test success message"));
    assert!(content.contains("Test debug message"));
}

#[test]
fn integration_test_test_level_filtering() {
    let mut reg = Registry::new();
    let mut fx = Effects::new();
    let config = LoggerConfig::builder()
        .level(LogLevel::Warning)
        .console(false)
        .file("filter.log")
        .build();

    let logger = LoggerInstance::new(config, &mut fx).unwrap();
    reg.push_scoped(logger);

    reg.log_error("Should appear", &mut fx).expect("Failed to log error");
    reg.log_warning("Should appear", &mut fx).expect("Failed to log warning");
    reg.log_info("Should not appear", &mut fx).expect("Failed to log info");
    reg.log_debug("Should not appear", &mut fx).expect("Failed to log debug");

    reg.flush(&mut fx).expect("Failed to flush");
    let logger = reg.pop_scoped().unwrap();

    let content = file_lines(&logger).join("\n");
    assert!(content.contains("Should appear"));
    assert!(!content.contains("Should not appear"));
}

#[test]
fn test_metadata() {
    let mut fx = Effects::new();
    let config = LoggerConfig::builder()
        .level(LogLevel::Info)
        .console(false)
        .file("meta.log")
        .metadata("service", "test-service")
        .metadata("version", "1.0.0")
        .build();

    let mut logger = LoggerInstance::new(config, &mut fx).unwrap();
    logger.info("Metadata test", &mut fx).unwrap();
    logger.flush(&mut fx).unwrap();

    let content = file_lines(&logger).join("\n");
    assert!(content.contains("service=test-service"));
    assert!(content.contains("version=1.0.0"));
}

#[test]
fn test_caller_information() {
    let mut fx = Effects::new();
    let config = LoggerConfig::builder()
        .level(LogLevel::Info)
        .console(false)
        .file("caller.log")
        .include_caller(true)
        .build();

    let mut logger = LoggerInstance::new(config, &mut fx).unwrap();
    let caller = firo_logger::CallerInfo {
        file: "integration_test.rs",
        line: 146,
        module: Some("integration_test"),
    };
    logger
        .log_with_caller(LogLevel::Info, "Caller test", Some(caller), None, &mut fx)
        .unwrap();
    logger.flush(&mut fx).unwrap();

    let content = file_lines(&logger).join("\n");
    assert!(content.contains("integration_test.rs"));
    assert!(content.contains("Caller test"));
}

#[test]
fn test_json_formatting() {
    let mut fx = Effects::new();
    let config = LoggerConfig::builder()
        .level(LogLevel::Info)
        .format(firo_logger::OutputFormat::Json)
        .console(false)
        .file("json.log")
        .include_caller(true)
        .metadata("test", "json_formatting")
        .build();

    let mut logger = LoggerInstance::new(config, &mut fx).unwrap();
    logger.info("JSON test message", &mut fx).unwrap();
    logger.flush(&mut fx).unwrap();

    let content = file_lines(&logger).join("\n");
    assert!(content.contains("\"level\":\"INFO\""));
    assert!(content.contains("\"message\":\"JSON test message\""));
    assert!(content.contains("\"timestamp\""));
    assert!(content.contains("\"metadata\""));
    assert!(content.contains("\"test\":\"json_formatting\""));
}

#[test]
fn test_async_logging() {
    let mut fx = Effects::new();
    let config = LoggerConfig::builder()
        .level(LogLevel::Info)
        .console(false)
        .file("async.log")
        .async_logging(1000)
        .build();

    let mut logger = LoggerInstance::new(config, &mut fx).unwrap();

    for i in 0..100 {
        logger
            .log_event(
                LogLevel::Info,
                &format!("Async test message {}", i),
                None,
                None,
                None,
                1_700_000_000_000 + i,
                stamp(),
                &mut fx,
            )
            .expect("Failed to log");
    }

    // Nothing reaches the file until the queue is drained.
    assert_eq!(file_lines(&logger).len(), 0);

    logger.flush_at(1_700_000_001_000, stamp(), &mut fx).unwrap();

    let content = file_lines(&logger);
    assert_eq!(content.len(), 100, "Expected 100 log lines");
    assert!(content[0].contains("Async test message 0"));
    assert!(content[99].contains("Async test message 99"));
}

#[test]
fn test_concurrent_logging() {
    // The verified core is single-owner; the shell serializes concurrent
    // callers in front of it. This exercises the same arrival pattern:
    // several batches interleaved into one queue.
    let mut fx = Effects::new();
    let config = LoggerConfig::builder()
        .level(LogLevel::Info)
        .console(false)
        .file("conc.log")
        .async_logging(5000)
        .build();

    let mut logger = LoggerInstance::new(config, &mut fx).unwrap();

    let num_threads = 10u64;
    let messages_per_thread = 100u64;
    for i in 0..messages_per_thread {
        for thread_id in 0..num_threads {
            logger
                .log_event(
                    LogLevel::Info,
                    &format!("Thread {} message {}", thread_id, i),
                    None,
                    None,
                    None,
                    1_700_000_000_000,
                    stamp(),
                    &mut fx,
                )
                .expect("Failed to log");
        }
    }

    logger.flush_at(1_700_000_001_000, stamp(), &mut fx).unwrap();

    let line_count = file_lines(&logger).len() as u64;
    assert_eq!(
        line_count,
        num_threads * messages_per_thread,
        "Expected all lines from every batch"
    );
}

#[test]
fn test_size_based_rotation() {
    let mut fx = Effects::new();
    let config = LoggerConfig::builder()
        .level(LogLevel::Info)
        .console(false)
        .file("rotation_test.log")
        .rotate_by_size(100, 2)
        .build();

    let mut logger = LoggerInstance::new(config, &mut fx).unwrap();

    for i in 0..10u64 {
        logger
            .log_event(
                LogLevel::Info,
                &format!("Rotation test message number {} with extra padding", i),
                None,
                None,
                None,
                1_700_000_000_000 + i * 1000,
                stamp(),
                &mut fx,
            )
            .expect("Failed to log");
    }

    logger.flush_at(1_700_000_100_000, stamp(), &mut fx).unwrap();

    let mut files = 1usize;
    for w in &logger.writer.writers {
        if let SinkWriter::File(f) = w {
            files += f.backups.len();
        }
    }
    assert!(files > 1, "Expected rotation to create backup files");
}

#[test]
fn test_utils() {
    let mut reg = Registry::new();
    let mut fx = Effects::new();
    let _ = reg.init(console_config(), &mut fx);

    let result = firo_logger::utils::log_execution_time(
        &mut reg,
        LogLevel::Info,
        "test operation",
        || 42,
        &mut fx,
    );
    assert_eq!(result, 42);

    let scoped = firo_logger::utils::ScopedLogger::new("TEST");
    scoped.info(&mut reg, "Scoped message", &mut fx);

    let mut rate_limiter = firo_logger::utils::RateLimiter::new(100);
    assert!(rate_limiter.log(&mut reg, LogLevel::Info, "Rate limited", &mut fx));
}

#[test]
fn test_rate_limiter_window() {
    let mut reg = Registry::new();
    let mut fx = Effects::new();
    let _ = reg.init(console_config(), &mut fx);

    let mut limiter = firo_logger::utils::RateLimiter::new(1000);
    assert!(limiter.log_at(&mut reg, LogLevel::Info, "first", 10_000, &mut fx));
    assert!(!limiter.log_at(&mut reg, LogLevel::Info, "too soon", 10_500, &mut fx));
    assert!(limiter.log_at(&mut reg, LogLevel::Info, "late enough", 11_000, &mut fx));
}
