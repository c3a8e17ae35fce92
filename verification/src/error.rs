//! Error type for logger operations.

use vstd::prelude::*;
use vstd::string::StringExecFns;

verus! {

/// The main error type for logger operations.
#[derive(Debug, Clone, PartialEq, Eq)]
pub enum LoggerError {
    /// An I/O failure during a file operation, as reported by the shell that
    /// performs the operation.
    Io(String),
    /// An invalid configuration, caught at validation time.
    Config(String),
    /// A serialization failure while rendering structured output.
    Serialization(String),
    /// The process-wide logger has already been initialized.
    AlreadyInitialized,
    /// The process-wide logger has not been initialized.
    NotInitialized,
    /// An asynchronous hand-off failure: the queue is full or closed.
    Channel(String),
    /// A clock read failure.
    Time(String),
    /// Any other failure.
    Custom(String),
}

impl LoggerError {
    /// A short, human-readable description of the error.
    pub fn message(&self) -> (r: String)
        ensures
            self is AlreadyInitialized ==> r@ == "Logger has already been initialized"@,
            self is NotInitialized ==> r@ == "Logger has not been initialized"@,
    {
        match self {
            LoggerError::Io(s) => {
                let mut m = String::new();
                m.append("IO error: ");
                m.append(s.as_str());
                m
            },
            LoggerError::Config(s) => {
                let mut m = String::new();
                m.append("Configuration error: ");
                m.append(s.as_str());
                m
            },
            LoggerError::Serialization(s) => {
                let mut m = String::new();
                m.append("Serialization error: ");
                m.append(s.as_str());
                m
            },
            LoggerError::AlreadyInitialized => {
                let mut m = String::new();
                m.append("Logger has already been initialized");
                proof {
                    assert(m@ =~= "Logger has already been initialized"@);
                }
                m
            },
            LoggerError::NotInitialized => {
                let mut m = String::new();
                m.append("Logger has not been initialized");
                proof {
                    assert(m@ =~= "Logger has not been initialized"@);
                }
                m
            },
            LoggerError::Channel(s) => {
                let mut m = String::new();
                m.append("Channel error: ");
                m.append(s.as_str());
                m
            },
            LoggerError::Time(s) => {
                let mut m = String::new();
                m.append("Time error: ");
                m.append(s.as_str());
                m
            },
            LoggerError::Custom(s) => {
                let mut m = String::new();
                m.append("Logger error: ");
                m.append(s.as_str());
                m
            },
        }
    }
}

} // verus!
