//! Logging configuration for the different ways the library is used (a
//! command-line tool, an embedded API, debugging, silence), and the
//! subscriber settings each mode asks for.
//!
//! Installing the subscriber is done by the application with
//! `tracing-subscriber`; it follows [`LoggingConfig::subscriber_settings`].
use vstd::prelude::*;
use crate::text::{concat2, owned};

verus! {

/// Logging mode for different use cases
#[derive(Debug, Clone, Copy, PartialEq, Eq, Structural)]
pub enum LoggingMode {
    /// CLI mode - user-friendly output with minimal noise
    Cli,
    /// API mode - minimal logging, only errors and warnings
    Api,
    /// Debug mode - detailed logging for development
    Debug,
    /// Silent mode - no logging output
    Silent,
}

/// Logging configuration
#[derive(Debug, Clone)]
pub struct LoggingConfig {
    pub mode: LoggingMode,
    pub level: String,
    pub show_target: bool,
    pub show_thread_ids: bool,
    pub show_file_line: bool,
    pub use_ansi_colors: bool,
    pub log_to_file: Option<String>,
}

impl Default for LoggingConfig {
    fn default() -> (c: LoggingConfig)
        ensures
            c.mode == LoggingMode::Api,
            c.level@ == "warn"@,
            !c.show_target && !c.show_thread_ids && !c.show_file_line,
            c.use_ansi_colors,
            c.log_to_file is None,
    {
        LoggingConfig {
            mode: LoggingMode::Api,
            level: owned("warn"),
            show_target: false,
            show_thread_ids: false,
            show_file_line: false,
            use_ansi_colors: true,
            log_to_file: None,
        }
    }
}

/// Which span events the console layer reports.
#[derive(Debug, Clone, Copy, PartialEq, Eq, Structural)]
pub enum SpanEvents {
    /// None
    Quiet,
    /// Entering and closing spans
    EnterAndClose,
}

/// How console lines are laid out.
#[derive(Debug, Clone, Copy, PartialEq, Eq, Structural)]
pub enum ConsoleFormat {
    Compact,
    Pretty,
}

/// Where console lines are written.
#[derive(Debug, Clone, Copy, PartialEq, Eq, Structural)]
pub enum ConsoleWriter {
    Stdout,
    Stderr,
}

/// The settings of the subscriber a logging configuration installs: its
/// console layer and, in debug mode, a JSON file layer rotated daily in
/// `./logs`.
#[derive(Debug, Clone)]
pub struct SubscriberSettings {
    pub with_target: bool,
    pub with_thread_ids: bool,
    pub with_file: bool,
    pub with_line_number: bool,
    pub with_ansi: bool,
    pub span_events: SpanEvents,
    pub format: ConsoleFormat,
    pub writer: ConsoleWriter,
    /// The file name of the JSON log, in debug mode with a log file
    pub json_log_file: Option<String>,
}

impl LoggingConfig {
    /// Create CLI logging configuration
    pub fn cli(verbose: bool) -> (c: LoggingConfig)
        ensures
            c.mode == LoggingMode::Cli,
            c.level@ == (if verbose { "info"@ } else { "warn"@ }),
            c.show_target == verbose,
            !c.show_thread_ids,
            c.show_file_line == verbose,
            c.use_ansi_colors,
            c.log_to_file is None,
    {
        LoggingConfig {
            mode: LoggingMode::Cli,
            level: if verbose { owned("info") } else { owned("warn") },
            show_target: verbose,
            show_thread_ids: false,
            show_file_line: verbose,
            use_ansi_colors: true,
            log_to_file: None,
        }
    }

    /// Create API logging configuration
    pub fn api() -> (c: LoggingConfig)
        ensures
            c.mode == LoggingMode::Api,
            c.level@ == "warn"@,
            !c.show_target && !c.show_thread_ids && !c.show_file_line,
            !c.use_ansi_colors,
            c.log_to_file is None,
    {
        LoggingConfig {
            mode: LoggingMode::Api,
            level: owned("warn"),
            show_target: false,
            show_thread_ids: false,
            show_file_line: false,
            use_ansi_colors: false,
            log_to_file: None,
        }
    }

    /// Create debug logging configuration
    pub fn debug() -> (c: LoggingConfig)
        ensures
            c.mode == LoggingMode::Debug,
            c.level@ == "debug"@,
            c.show_target && c.show_thread_ids && c.show_file_line,
            c.use_ansi_colors,
            c.log_to_file matches Some(f) && f@ == "turbo-cdn-debug.log"@,
    {
        LoggingConfig {
            mode: LoggingMode::Debug,
            level: owned("debug"),
            show_target: true,
            show_thread_ids: true,
            show_file_line: true,
            use_ansi_colors: true,
            log_to_file: Some(owned("turbo-cdn-debug.log")),
        }
    }

    /// Create silent logging configuration
    pub fn silent() -> (c: LoggingConfig)
        ensures
            c.mode == LoggingMode::Silent,
            c.level@ == "error"@,
            !c.show_target && !c.show_thread_ids && !c.show_file_line,
            !c.use_ansi_colors,
            c.log_to_file is None,
    {
        LoggingConfig {
            mode: LoggingMode::Silent,
            level: owned("error"),
            show_target: false,
            show_thread_ids: false,
            show_file_line: false,
            use_ansi_colors: false,
            log_to_file: None,
        }
    }

    /// The API configuration with another level.
    pub fn api_with_level(level: &str) -> (c: LoggingConfig)
        ensures
            c.mode == LoggingMode::Api,
            c.level@ == level@,
            !c.show_target && !c.show_thread_ids && !c.show_file_line,
            !c.use_ansi_colors,
            c.log_to_file is None,
    {
        LoggingConfig { level: owned(level), ..LoggingConfig::api() }
    }

    /// The filter directive used when the environment sets none: the
    /// configured level for this crate.
    pub fn default_filter_directive(&self) -> (d: String)
        ensures
            d@ == "turbo_cdn="@ + self.level@,
    {
        concat2("turbo_cdn=", self.level.as_str())
    }

    /// The subscriber settings of the configuration's mode. CLI mode follows
    /// the configuration's switches; API and silent mode are plain and
    /// write to standard error; debug mode shows everything, reports span
    /// entry and exit, and adds a JSON file log where one is configured.
    pub fn subscriber_settings(&self) -> (s: SubscriberSettings)
        ensures
            self.mode == LoggingMode::Cli ==> s.with_target == self.show_target
                && s.with_thread_ids == self.show_thread_ids && s.with_file == self.show_file_line
                && s.with_line_number == self.show_file_line && s.with_ansi == self.use_ansi_colors
                && s.span_events == SpanEvents::Quiet && s.format == ConsoleFormat::Compact
                && s.writer == ConsoleWriter::Stdout && s.json_log_file is None,
            (self.mode == LoggingMode::Api || self.mode == LoggingMode::Silent) ==> !s.with_target
                && !s.with_thread_ids && !s.with_file && !s.with_line_number && !s.with_ansi
                && s.span_events == SpanEvents::Quiet && s.format == ConsoleFormat::Compact
                && s.writer == ConsoleWriter::Stderr && s.json_log_file is None,
            self.mode == LoggingMode::Debug ==> s.with_target && s.with_thread_ids && s.with_file
                && s.with_line_number && s.with_ansi == self.use_ansi_colors
                && s.span_events == SpanEvents::EnterAndClose && s.format == ConsoleFormat::Pretty
                && s.writer == ConsoleWriter::Stdout
                && (s.json_log_file is Some <==> self.log_to_file is Some)
                && (s.json_log_file matches Some(f) ==> f@ == self.log_to_file->Some_0@),
    {
        match self.mode {
            LoggingMode::Cli => SubscriberSettings {
                with_target: self.show_target,
                with_thread_ids: self.show_thread_ids,
                with_file: self.show_file_line,
                with_line_number: self.show_file_line,
                with_ansi: self.use_ansi_colors,
                span_events: SpanEvents::Quiet,
                format: ConsoleFormat::Compact,
                writer: ConsoleWriter::Stdout,
                json_log_file: None,
            },
            LoggingMode::Api | LoggingMode::Silent => SubscriberSettings {
                with_target: false,
                with_thread_ids: false,
                with_file: false,
                with_line_number: false,
                with_ansi: false,
                span_events: SpanEvents::Quiet,
                format: ConsoleFormat::Compact,
                writer: ConsoleWriter::Stderr,
                json_log_file: None,
            },
            LoggingMode::Debug => SubscriberSettings {
                with_target: true,
                with_thread_ids: true,
                with_file: true,
                with_line_number: true,
                with_ansi: self.use_ansi_colors,
                span_events: SpanEvents::EnterAndClose,
                format: ConsoleFormat::Pretty,
                writer: ConsoleWriter::Stdout,
                json_log_file: match &self.log_to_file {
                    Some(f) => Some(owned(f.as_str())),
                    None => None,
                },
            },
        }
    }
}

} // verus!
