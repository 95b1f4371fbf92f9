//! The standard log observer configuration for started containers.
//!
//! Container output is forwarded to the logging facade with a fixed,
//! deliberately unconfigurable severity mapping: standard output at
//! informational severity, standard error at error severity. The observer
//! itself is `testcontainers`' `LoggingConsumer`; this module fixes the
//! mapping and builds the observer, and the caller attaches it to the
//! container request before starting it.

use vstd::prelude::*;

verus! {

/// The severity a container output stream is logged at.
#[derive(Clone, Copy, Debug, PartialEq, Eq, Structural)]
pub enum LogSeverity {
    /// Informational: ordinary output.
    Info,
    /// Error: output that signals a problem.
    Error,
}

/// How a log observer maps the two container output streams to severities.
#[derive(Clone, Copy, Debug, PartialEq, Eq, Structural)]
pub struct LogConsumerConfig {
    /// Severity for the container's standard output.
    pub stdout: LogSeverity,
    /// Severity for the container's standard error.
    pub stderr: LogSeverity,
}

/// The fixed mapping of the standard log observer: standard output is
/// informational, standard error is an error. No other mapping is offered.
pub fn default_log_consumer_config() -> (config: LogConsumerConfig)
    ensures
        config.stdout is Info,
        config.stderr is Error,
{
    LogConsumerConfig { stdout: LogSeverity::Info, stderr: LogSeverity::Error }
}

#[verifier::external_type_specification]
#[verifier::external_body]
pub struct ExLogLevel(log::Level);

#[verifier::external_type_specification]
#[verifier::external_body]
pub struct ExLoggingConsumer(testcontainers::core::logs::consumer::logging_consumer::LoggingConsumer);

/// The severity an observer logs the container's standard output at.
pub uninterp spec fn consumer_stdout(
    consumer: testcontainers::core::logs::consumer::logging_consumer::LoggingConsumer,
) -> LogSeverity;

/// The severity an observer logs the container's standard error at.
pub uninterp spec fn consumer_stderr(
    consumer: testcontainers::core::logs::consumer::logging_consumer::LoggingConsumer,
) -> LogSeverity;

/// The severity a log level stands for.
pub uninterp spec fn level_severity(level: log::Level) -> LogSeverity;

/// Relies on log's `Level` values `Info` and `Error`: the two severities the
/// fixed mapping uses.
#[verifier::external_body]
fn log_level_for(severity: &LogSeverity) -> (level: log::Level)
    ensures
        level_severity(level) == *severity,
{
    match severity {
        LogSeverity::Info => log::Level::Info,
        LogSeverity::Error => log::Level::Error,
    }
}

/// Relies on testcontainers' `testcontainers::core::logs::consumer::logging_consumer::LoggingConsumer::new`: a fresh observer that
/// forwards container output to the logging facade.
pub assume_specification[ testcontainers::core::logs::consumer::logging_consumer::LoggingConsumer::new ]() -> testcontainers::core::logs::consumer::logging_consumer::LoggingConsumer;

/// Relies on testcontainers' `testcontainers::core::logs::consumer::logging_consumer::LoggingConsumer::with_stdout_level`: sets the
/// severity standard output is logged at and changes nothing else.
pub assume_specification[ testcontainers::core::logs::consumer::logging_consumer::LoggingConsumer::with_stdout_level ](
    consumer: testcontainers::core::logs::consumer::logging_consumer::LoggingConsumer,
    level: log::Level,
) -> (updated: testcontainers::core::logs::consumer::logging_consumer::LoggingConsumer)
    ensures
        consumer_stdout(updated) == level_severity(level),
        consumer_stderr(updated) == consumer_stderr(consumer),
;

/// Relies on testcontainers' `testcontainers::core::logs::consumer::logging_consumer::LoggingConsumer::with_stderr_level`: sets the
/// severity standard error is logged at and changes nothing else.
pub assume_specification[ testcontainers::core::logs::consumer::logging_consumer::LoggingConsumer::with_stderr_level ](
    consumer: testcontainers::core::logs::consumer::logging_consumer::LoggingConsumer,
    level: log::Level,
) -> (updated: testcontainers::core::logs::consumer::logging_consumer::LoggingConsumer)
    ensures
        consumer_stderr(updated) == level_severity(level),
        consumer_stdout(updated) == consumer_stdout(consumer),
;

/// Builds the standard log observer under the fixed mapping: the returned
/// observer logs standard output at informational severity and standard
/// error at error severity.
pub fn default_log_consumer() -> (consumer: testcontainers::core::logs::consumer::logging_consumer::LoggingConsumer)
    ensures
        consumer_stdout(consumer) is Info,
        consumer_stderr(consumer) is Error,
{
    let config = default_log_consumer_config();
    testcontainers::core::logs::consumer::logging_consumer::LoggingConsumer::new().with_stdout_level(log_level_for(&config.stdout)).with_stderr_level(
        log_level_for(&config.stderr),
    )
}

} // verus!
