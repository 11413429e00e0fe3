//! The loggers that the server can be given, and the lines they write.

use vstd::prelude::*;

verus! {

/// The level of a log message.
#[derive(Debug, Clone, Copy, PartialEq, Eq, Structural)]
pub enum LogLevel {
    Info,
    Warn,
    Error,
    Debug,
}

impl LogLevel {
    /// Warnings and errors go to standard error, the rest to standard output.
    pub open spec fn spec_to_stderr(self) -> bool {
        self is Warn || self is Error
    }

    /// Whether a console logger writes a message of this level to standard
    /// error rather than standard output.
    pub fn to_stderr(&self) -> (r: bool)
        ensures
            r == self.spec_to_stderr(),
    {
        match self {
            LogLevel::Warn | LogLevel::Error => true,
            LogLevel::Info | LogLevel::Debug => false,
        }
    }
}

/// Logs through `tracing` at the message's level.
#[derive(Clone)]
pub struct DefaultLogger;

/// Drops every message.
#[derive(Clone)]
pub struct NoOpLogger;

/// Writes each message to the console behind a level tag and a prefix.
#[derive(Clone)]
pub struct ConsoleLogger {
    pub prefix: String,
}

/// The tag that a console line starts with.
pub open spec fn console_tag(level: LogLevel) -> Seq<char> {
    match level {
        LogLevel::Info => "[INFO] "@,
        LogLevel::Warn => "[WARN] "@,
        LogLevel::Error => "[ERROR] "@,
        LogLevel::Debug => "[DEBUG] "@,
    }
}

/// The line that a console logger with `prefix` writes for `message`.
pub open spec fn console_line(prefix: Seq<char>, level: LogLevel, message: Seq<char>) -> Seq<char> {
    console_tag(level) + prefix + ": "@ + message
}

impl ConsoleLogger {
    pub fn new(prefix: &str) -> (r: ConsoleLogger)
        ensures
            r.prefix@ == prefix@,
    {
        ConsoleLogger { prefix: prefix.to_owned() }
    }

    /// The line written for `message` at `level`.
    pub fn line(&self, level: LogLevel, message: &str) -> (r: String)
        ensures
            r@ == console_line(self.prefix@, level, message@),
    {
        let mut r = match level {
            LogLevel::Info => "[INFO] ".to_owned(),
            LogLevel::Warn => "[WARN] ".to_owned(),
            LogLevel::Error => "[ERROR] ".to_owned(),
            LogLevel::Debug => "[DEBUG] ".to_owned(),
        };
        r.append(self.prefix.as_str());
        r.append(": ");
        r.append(message);
        r
    }
}

/// The logger of the API server: one line per message, marked by an emoji
/// and the service's name.
#[derive(Clone)]
pub struct ApiLogger {
    pub service_name: String,
}

/// The text before the service's name.
pub open spec fn api_mark(level: LogLevel) -> Seq<char> {
    match level {
        LogLevel::Info => "🔔 ["@,
        LogLevel::Warn => "⚠️ ["@,
        LogLevel::Error => "❌ ["@,
        LogLevel::Debug => "🐛 ["@,
    }
}

/// The text between the service's name and the message.
pub open spec fn api_tag(level: LogLevel) -> Seq<char> {
    match level {
        LogLevel::Info => "] INFO: "@,
        LogLevel::Warn => "] WARN: "@,
        LogLevel::Error => "] ERROR: "@,
        LogLevel::Debug => "] DEBUG: "@,
    }
}

/// The line that the API logger of `service` writes for `message`.
pub open spec fn api_line(service: Seq<char>, level: LogLevel, message: Seq<char>) -> Seq<char> {
    api_mark(level) + service + api_tag(level) + message
}

impl ApiLogger {
    pub fn new(service_name: String) -> (r: ApiLogger)
        ensures
            r.service_name == service_name,
    {
        ApiLogger { service_name }
    }

    /// The line written for `message` at `level`.
    pub fn line(&self, level: LogLevel, message: &str) -> (r: String)
        ensures
            r@ == api_line(self.service_name@, level, message@),
    {
        let (mut r, tag) = match level {
            LogLevel::Info => ("🔔 [".to_owned(), "] INFO: "),
            LogLevel::Warn => ("⚠️ [".to_owned(), "] WARN: "),
            LogLevel::Error => ("❌ [".to_owned(), "] ERROR: "),
            LogLevel::Debug => ("🐛 [".to_owned(), "] DEBUG: "),
        };
        r.append(self.service_name.as_str());
        r.append(tag);
        r.append(message);
        r
    }
}

} // verus!
