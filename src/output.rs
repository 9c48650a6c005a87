//! Where the lines that the server writes are forwarded.
use vstd::prelude::*;

verus! {

/// A chunk of output from the server process.
pub enum OutputEvent {
    /// A line written to standard output.
    Stdout(Vec<u8>),
    /// A line written to standard error.
    Stderr(Vec<u8>),
    /// Anything else the process reports (an error, its termination).
    Other,
}

/// The console stream a line is written to.
#[derive(Clone, Copy, Debug, PartialEq, Eq, Structural)]
pub enum LogStream {
    Output,
    Error,
}

/// A line to log: the stream, a label naming its source, and the bytes as
/// the server wrote them.
pub struct LogLine {
    pub stream: LogStream,
    pub label: &'static str,
    pub bytes: Vec<u8>,
}

/// The label of lines the server writes to standard output.
pub const STDOUT_LABEL: &'static str = "API Server: ";

/// The label of lines the server writes to standard error.
pub const STDERR_LABEL: &'static str = "API Server Error: ";

/// The line to log for `event`: standard output goes to the console's
/// output, standard error to its error stream, each with its label; other
/// events are not logged.
pub fn route_event(event: OutputEvent) -> (r: Option<LogLine>)
    ensures
        match event {
            OutputEvent::Stdout(b) => r matches Some(l) && l.stream == LogStream::Output && l.label@ == STDOUT_LABEL@
                && l.bytes@ == b@,
            OutputEvent::Stderr(b) => r matches Some(l) && l.stream == LogStream::Error && l.label@ == STDERR_LABEL@
                && l.bytes@ == b@,
            OutputEvent::Other => r is None,
        },
{
    match event {
        OutputEvent::Stdout(bytes) => Some(LogLine { stream: LogStream::Output, label: STDOUT_LABEL, bytes }),
        OutputEvent::Stderr(bytes) => Some(LogLine { stream: LogStream::Error, label: STDERR_LABEL, bytes }),
        OutputEvent::Other => None,
    }
}

} // verus!
