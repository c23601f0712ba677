//! The record that a call site hands to the pipeline.

use vstd::prelude::*;
use crate::clock::Timestamp;
use crate::severity::Severity;

verus! {

/// What a log event holds, as plain values.
pub struct LogEventView {
    pub severity: Severity,
    pub module: Seq<char>,
    pub line: Option<u32>,
    pub message: Seq<char>,
    pub timestamp: Timestamp,
}

/// One log line as it was emitted: severity, originating module, source line
/// if known, the finished message, and the time at which it was created. An
/// event is never changed after it was made.
#[derive(Debug)]
pub struct LogEvent {
    severity: Severity,
    module: String,
    line: Option<u32>,
    message: String,
    timestamp: Timestamp,
}

impl View for LogEvent {
    type V = LogEventView;

    closed spec fn view(&self) -> LogEventView {
        LogEventView {
            severity: self.severity,
            module: self.module@,
            line: self.line,
            message: self.message@,
            timestamp: self.timestamp,
        }
    }
}

impl LogEvent {
    /// Makes the event of a call site. `timestamp` is the time of the call.
    pub fn new(
        severity: Severity,
        module: &str,
        line: Option<u32>,
        message: &str,
        timestamp: Timestamp,
    ) -> (r: LogEvent)
        ensures
            r@ == (LogEventView {
                severity,
                module: module@,
                line,
                message: message@,
                timestamp,
            }),
    {
        LogEvent {
            severity,
            module: module.to_owned(),
            line,
            message: message.to_owned(),
            timestamp,
        }
    }

    /// The severity of the event.
    pub fn severity(&self) -> (r: Severity)
        ensures
            r == self@.severity,
    {
        self.severity
    }

    /// The path of the module that emitted the event.
    pub fn module(&self) -> (r: &str)
        ensures
            r@ == self@.module,
    {
        self.module.as_str()
    }

    /// The source line of the call site, if the caller gave one.
    pub fn line(&self) -> (r: Option<u32>)
        ensures
            r == self@.line,
    {
        self.line
    }

    /// The message text.
    pub fn message(&self) -> (r: &str)
        ensures
            r@ == self@.message,
    {
        self.message.as_str()
    }

    /// The time at which the event was created.
    pub fn timestamp(&self) -> (r: Timestamp)
        ensures
            r == self@.timestamp,
    {
        self.timestamp
    }
}

} // verus!
