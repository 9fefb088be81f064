//! Logging configuration: subscribers, their formats, levels and destinations.

pub mod json;

use vstd::prelude::*;

use crate::text::owned;

verus! {

/// Output format of a subscriber.
#[derive(Clone, Copy, Debug, PartialEq, Eq, Structural)]
pub enum LoggingFormat {
    /// Full human-readable lines.
    Full,
    /// Compact human-readable lines.
    Compact,
    /// Multi-line human-readable output.
    Pretty,
    /// One JSON object per event.
    Json {
        /// Put event metadata at the top level.
        flatten_metadata: bool,
        /// Add the current span.
        current_span: bool,
        /// Add the list of entered spans.
        span_list: bool,
    },
}

impl Default for LoggingFormat {
    fn default() -> (r: LoggingFormat)
        ensures
            r == LoggingFormat::Full,
    {
        LoggingFormat::Full
    }
}

/// Most verbose level a subscriber records.
#[derive(Clone, Copy, Debug, PartialEq, Eq, Structural)]
pub enum LoggingLevel {
    Off,
    Error,
    Warn,
    Info,
    Debug,
    Trace,
}

impl Default for LoggingLevel {
    fn default() -> (r: LoggingLevel)
        ensures
            r == LoggingLevel::Debug,
    {
        LoggingLevel::Debug
    }
}

/// What each event line shows.
#[derive(Clone, Copy, Debug, PartialEq, Eq, Structural)]
pub struct LoggingPrintingConfig {
    /// Event target.
    pub target: bool,
    /// Source file.
    pub file: bool,
    /// Source line.
    pub line_number: bool,
    /// Event level.
    pub level: bool,
    /// Thread name.
    pub thread_name: bool,
    /// Thread ID.
    pub thread_id: bool,
}

impl Default for LoggingPrintingConfig {
    fn default() -> (r: LoggingPrintingConfig)
        ensures
            !r.target && !r.file && !r.line_number && r.level && !r.thread_name && !r.thread_id,
    {
        LoggingPrintingConfig {
            target: false,
            file: false,
            line_number: false,
            level: true,
            thread_name: false,
            thread_id: false,
        }
    }
}

/// Buffering between the service and the log destination.
#[derive(Clone, Debug)]
pub struct LoggingBufferConfig {
    /// Lines kept in the buffer.
    pub lines: usize,
    /// Drop lines when the buffer is full instead of waiting.
    pub lossy: bool,
    /// Name of the writer thread.
    pub thread_name: Option<String>,
}

impl Default for LoggingBufferConfig {
    fn default() -> (r: LoggingBufferConfig)
        ensures
            r.lines == 128_000 && r.lossy && r.thread_name is None,
    {
        LoggingBufferConfig { lines: 128_000, lossy: true, thread_name: None }
    }
}

/// A log file.
#[derive(Clone, Debug)]
pub struct LoggingFileConfig {
    /// Path of the file.
    pub path: String,
}

/// How often a log directory starts a new file.
#[derive(Clone, Copy, Debug, PartialEq, Eq, Structural)]
pub enum LogRotation {
    Minutely,
    Hourly,
    Daily,
    Never,
}

impl Default for LogRotation {
    fn default() -> (r: LogRotation)
        ensures
            r == LogRotation::Daily,
    {
        LogRotation::Daily
    }
}

/// A directory of rotated log files.
#[derive(Clone, Debug)]
pub struct LoggingDirectoryConfig {
    /// Directory path.
    pub path: String,
    /// Rotation period.
    pub rotate: LogRotation,
    /// File name prefix.
    pub prefix: Option<String>,
    /// File name suffix.
    pub suffix: Option<String>,
    /// Number of files kept.
    pub max_files: Option<usize>,
}

impl Default for LoggingDirectoryConfig {
    fn default() -> (r: LoggingDirectoryConfig)
        ensures
            r.path@ == "."@,
            r.rotate == LogRotation::Daily,
            r.prefix is None,
            r.suffix matches Some(s) && s@ == "log"@,
            r.max_files is None,
    {
        LoggingDirectoryConfig {
            path: owned("."),
            rotate: LogRotation::Daily,
            prefix: None,
            suffix: Some(owned("log")),
            max_files: None,
        }
    }
}

/// Where a subscriber writes.
#[derive(Clone, Debug)]
pub enum LoggingDestination {
    /// Standard output.
    StdOut,
    /// Standard error.
    StdErr,
    /// A file, appended to.
    File(LoggingFileConfig),
    /// A directory of rotated files.
    Directory(LoggingDirectoryConfig),
}

impl Default for LoggingDestination {
    fn default() -> (r: LoggingDestination)
        ensures
            r is StdOut,
    {
        LoggingDestination::StdOut
    }
}

/// One log subscriber.
#[derive(Clone, Debug)]
pub struct LoggingSubscriberConfig {
    /// Output format.
    pub format: LoggingFormat,
    /// Most verbose level recorded.
    pub level: LoggingLevel,
    /// Use terminal colors.
    pub color: bool,
    /// Report errors of the logging machinery itself.
    pub internal_errors: bool,
    /// What each line shows.
    pub print: LoggingPrintingConfig,
    /// Buffering.
    pub buffer: LoggingBufferConfig,
    /// Destination.
    pub output: LoggingDestination,
}

impl Default for LoggingSubscriberConfig {
    fn default() -> (r: LoggingSubscriberConfig)
        ensures
            r.format == LoggingFormat::Full,
            r.level == LoggingLevel::Debug,
            !r.color && r.internal_errors,
            r.print == (LoggingPrintingConfig { target: false, file: false, line_number: false, level: true, thread_name: false, thread_id: false }),
            r.buffer.lines == 128_000 && r.buffer.lossy && r.buffer.thread_name is None,
            r.output is StdOut,
    {
        LoggingSubscriberConfig {
            format: LoggingFormat::Full,
            level: LoggingLevel::Debug,
            color: false,
            internal_errors: true,
            print: LoggingPrintingConfig::default(),
            buffer: LoggingBufferConfig::default(),
            output: LoggingDestination::StdOut,
        }
    }
}

impl LoggingSubscriberConfig {
    /// Settings for development: pretty, colored, most verbose, with source
    /// locations and thread names.
    pub fn default_for_dev() -> (r: LoggingSubscriberConfig)
        ensures
            r.format == LoggingFormat::Pretty,
            r.level == LoggingLevel::Trace,
            r.color && r.internal_errors,
            r.print == (LoggingPrintingConfig { target: true, file: true, line_number: true, level: true, thread_name: true, thread_id: false }),
            r.buffer.lines == 128_000 && r.buffer.lossy && r.buffer.thread_name is None,
            r.output is StdOut,
    {
        LoggingSubscriberConfig {
            format: LoggingFormat::Pretty,
            level: LoggingLevel::Trace,
            color: true,
            internal_errors: true,
            print: LoggingPrintingConfig {
                target: true,
                file: true,
                line_number: true,
                level: true,
                thread_name: true,
                thread_id: false,
            },
            buffer: LoggingBufferConfig::default(),
            output: LoggingDestination::StdOut,
        }
    }
}

/// Logging configuration: the subscribers events go to.
#[derive(Clone, Debug)]
pub struct LoggingConfig {
    /// Subscribers.
    pub subscribers: Vec<LoggingSubscriberConfig>,
}

impl Default for LoggingConfig {
    fn default() -> (r: LoggingConfig)
        ensures
            r.subscribers@.len() == 0,
    {
        LoggingConfig { subscribers: Vec::new() }
    }
}

} // verus!
