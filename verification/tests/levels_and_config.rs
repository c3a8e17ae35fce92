//! Tests for log levels, configuration and the builder.

use firo_logger::{LogLevel, LoggerConfig, OutputFormat};

#[test]
fn test_log_level_ordering() {
    assert!(LogLevel::Error < LogLevel::Warning);
    assert!(LogLevel::Warning < LogLevel::Info);
    assert!(LogLevel::Info < LogLevel::Success);
    assert!(LogLevel::Success < LogLevel::Debug);
}

#[test]
fn test_log_level_from_str() {
    assert_eq!("ERROR".parse::<LogLevel>().unwrap(), LogLevel::Error);
    assert_eq!("WARN".parse::<LogLevel>().unwrap(), LogLevel::Warning);
    assert_eq!("info".parse::<LogLevel>().unwrap(), LogLevel::Info);
    assert!("INVALID".parse::<LogLevel>().is_err());
}

#[test]
fn test_log_level_names() {
    assert_eq!(LogLevel::Error.as_str(), "ERROR");
    assert_eq!(LogLevel::Success.as_str(), "SUCCESS");
    let all = LogLevel::all();
    assert_eq!(all.len(), 5);
    assert_eq!(all[0], LogLevel::Error);
    assert_eq!(all[4], LogLevel::Debug);
}

#[test]
fn config_test_config_builder() {
    let config = LoggerConfig::builder()
        .level(LogLevel::Debug)
        .colors(false)
        .file("test.log")
        .async_logging(500)
        .build();

    assert_eq!(config.level, LogLevel::Debug);
    assert!(!config.console.colors);
    assert!(config.file_enabled);
    assert_eq!(config.file.path, "test.log");
    assert!(config.async_enabled);
    assert_eq!(config.async_buffer_size, 500);
}

#[test]
fn lib_test_config_builder() {
    let config = LoggerConfig::builder()
        .level(LogLevel::Debug)
        .console(true)
        .colors(false)
        .file("test.log")
        .format(OutputFormat::Json)
        .include_caller(true)
        .include_thread(true)
        .metadata("test", "value")
        .build();

    assert_eq!(config.level, LogLevel::Debug);
    assert!(config.console_enabled);
    assert!(!config.console.colors);
    assert!(config.file_enabled);
    assert_eq!(config.format, OutputFormat::Json);
    assert!(config.include_caller);
    assert!(config.include_thread);
    assert_eq!(config.metadata.get("test"), Some(&"value".to_string()));
}

#[test]
fn test_configuration_builder() {
    let config = LoggerConfig::builder()
        .level(LogLevel::Debug)
        .console(true)
        .colors(false)
        .format(OutputFormat::Json)
        .include_caller(true)
        .include_thread(true)
        .metadata("test", "value")
        .build();

    assert_eq!(config.level, LogLevel::Debug);
    assert!(config.console_enabled);
    assert!(!config.console.colors);
    assert_eq!(config.format, OutputFormat::Json);
    assert!(config.include_caller);
    assert!(config.include_thread);
    assert_eq!(config.metadata.get("test"), Some(&"value".to_string()));
}

#[test]
fn test_configuration_validation() {
    let config = LoggerConfig {
        console_enabled: false,
        file_enabled: false,
        ..Default::default()
    };

    let result = config.validate();
    assert!(result.is_err(), "Expected validation to fail with no outputs");

    let valid_config = LoggerConfig::builder().console(true).build();
    assert!(valid_config.validate().is_ok());
}

#[test]
fn integration_test_test_configuration_validation() {
    let mut config = LoggerConfig::default();
    config.console_enabled = false;
    config.file_enabled = false;

    let result = config.validate();
    assert!(result.is_err(), "Expected validation to fail with no outputs");

    let valid_config = LoggerConfig::builder().console(true).build();
    assert!(valid_config.validate().is_ok());
}

#[test]
fn test_validation_error_messages() {
    let mut config = LoggerConfig::default();
    config.console_enabled = false;
    match config.validate() {
        Err(firo_logger::LoggerError::Config(m)) => {
            assert_eq!(m, "At least one output (console or file) must be enabled");
        }
        other => panic!("unexpected validation result: {:?}", other),
    }

    let mut config = LoggerConfig::default();
    config.file_enabled = true;
    config.file.path = String::new();
    match config.validate() {
        Err(firo_logger::LoggerError::Config(m)) => {
            assert_eq!(m, "File path cannot be empty when file logging is enabled");
        }
        other => panic!("unexpected validation result: {:?}", other),
    }

    let mut config = LoggerConfig::default();
    config.async_enabled = true;
    config.async_buffer_size = 0;
    match config.validate() {
        Err(firo_logger::LoggerError::Config(m)) => {
            assert_eq!(m, "Async buffer size must be greater than 0");
        }
        other => panic!("unexpected validation result: {:?}", other),
    }
}

#[test]
fn test_module_filter() {
    let mut config = LoggerConfig {
        level: LogLevel::Info,
        ..Default::default()
    };
    config
        .module_filters
        .insert("my_crate::module".to_string(), LogLevel::Debug);

    assert_eq!(config.effective_level("my_crate::module"), LogLevel::Debug);
    assert_eq!(
        config.effective_level("my_crate::module::submodule"),
        LogLevel::Debug
    );
    assert_eq!(config.effective_level("other_crate"), LogLevel::Info);
}

#[test]
fn test_module_override_resolution() {
    let mut config = LoggerConfig {
        level: LogLevel::Info,
        ..Default::default()
    };
    config.module_filters.insert("a::b".to_string(), LogLevel::Debug);

    assert_eq!(config.effective_level("a::b::c"), LogLevel::Debug);
    assert_eq!(config.effective_level("x"), LogLevel::Info);
}

#[test]
fn test_longest_override_wins() {
    let mut config = LoggerConfig {
        level: LogLevel::Info,
        ..Default::default()
    };
    config.module_filters.insert("a".to_string(), LogLevel::Error);
    config.module_filters.insert("a::b".to_string(), LogLevel::Debug);

    assert_eq!(config.effective_level("a::b::c"), LogLevel::Debug);
    assert_eq!(config.effective_level("a::other"), LogLevel::Error);
}

#[test]
fn test_error_messages() {
    assert_eq!(
        firo_logger::LoggerError::AlreadyInitialized.message(),
        "Logger has already been initialized"
    );
    assert_eq!(
        firo_logger::LoggerError::NotInitialized.message(),
        "Logger has not been initialized"
    );
    assert_eq!(
        firo_logger::LoggerError::Io("gone".to_string()).message(),
        "IO error: gone"
    );
    assert_eq!(
        firo_logger::LoggerError::Channel("full".to_string()).message(),
        "Channel error: full"
    );
}
