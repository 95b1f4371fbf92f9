use testcontainers_ext::logging::default_log_consumer;
use testcontainers_ext::logging::default_log_consumer_config;
use testcontainers_ext::logging::LogSeverity;

#[test]
fn fixed_severity_mapping() {
    let config = default_log_consumer_config();
    assert_eq!(config.stdout, LogSeverity::Info);
    assert_eq!(config.stderr, LogSeverity::Error);
}

#[test]
fn standard_observer_builds() {
    // Exercises the construction of the real observer under the fixed
    // mapping; the observer's later I/O happens only once a container runs.
    let _consumer = default_log_consumer();
}
