use turbo_cdn::logging::{ConsoleFormat, ConsoleWriter, LoggingConfig, LoggingMode, SpanEvents};

#[test]
fn test_logging_config_creation() {
    let cli_config = LoggingConfig::cli(true);
    assert_eq!(cli_config.mode, LoggingMode::Cli);
    assert_eq!(cli_config.level, "info");
    assert!(cli_config.show_target);

    let api_config = LoggingConfig::api();
    assert_eq!(api_config.mode, LoggingMode::Api);
    assert_eq!(api_config.level, "warn");
    assert!(!api_config.show_target);
}

#[test]
fn test_debug_config() {
    let debug_config = LoggingConfig::debug();
    assert_eq!(debug_config.mode, LoggingMode::Debug);
    assert_eq!(debug_config.level, "debug");
    assert!(debug_config.show_target);
    assert!(debug_config.show_thread_ids);
    assert!(debug_config.show_file_line);
}

#[test]
fn quiet_cli_and_silent_configs() {
    let cli = LoggingConfig::cli(false);
    assert_eq!(cli.level, "warn");
    assert!(!cli.show_target && !cli.show_file_line);
    let silent = LoggingConfig::silent();
    assert_eq!(silent.mode, LoggingMode::Silent);
    assert_eq!(silent.level, "error");
    let default = LoggingConfig::default();
    assert_eq!(default.mode, LoggingMode::Api);
    assert!(default.use_ansi_colors);
}

#[test]
fn filter_directive_names_the_crate() {
    assert_eq!(LoggingConfig::api().default_filter_directive(), "turbo_cdn=warn");
    assert_eq!(LoggingConfig::api_with_level("trace").default_filter_directive(), "turbo_cdn=trace");
}

#[test]
fn subscriber_settings_follow_the_mode() {
    let api = LoggingConfig::api().subscriber_settings();
    assert_eq!(api.writer, ConsoleWriter::Stderr);
    assert_eq!(api.format, ConsoleFormat::Compact);
    assert!(!api.with_ansi);
    let debug = LoggingConfig::debug().subscriber_settings();
    assert_eq!(debug.format, ConsoleFormat::Pretty);
    assert_eq!(debug.span_events, SpanEvents::EnterAndClose);
    assert_eq!(debug.json_log_file, Some("turbo-cdn-debug.log".to_string()));
    let cli = LoggingConfig::cli(true).subscriber_settings();
    assert!(cli.with_target && cli.with_file && cli.with_line_number && !cli.with_thread_ids);
    assert_eq!(cli.writer, ConsoleWriter::Stdout);
}
