//! Events exchanged between the supervisor's components.

use vstd::prelude::*;

verus! {

/// A readiness event emitted by the prober for one generation.
///
/// `Waiting(n)` reports that attempt `n` failed and another poll is due;
/// `Ready(n)` reports that attempt `n` succeeded; `Error` reports that the
/// whole attempt budget was spent without a success.
#[derive(Debug, Clone, Copy, PartialEq, Eq)]
pub enum ProbeEvent {
    Waiting(u32),
    Ready(u32),
    Error,
}

/// Which of the child process's output streams a line came from.
#[derive(Debug, Clone, Copy, PartialEq, Eq)]
pub enum StreamTag {
    Stdout,
    Stderr,
}

/// One line read from the child process, tagged with its source stream.
/// Lines keep their order within a stream; no order is promised across
/// the two streams.
#[derive(Debug, Clone, PartialEq, Eq)]
pub struct LogLine {
    pub tag: StreamTag,
    pub text: String,
}

impl LogLine {
    /// Tags a freshly read line with the stream it came from.
    pub fn new(tag: StreamTag, text: String) -> (line: LogLine)
        ensures
            line.tag == tag,
            line.text@ == text@,
    {
        LogLine { tag, text }
    }

    /// The line as it is written to the console sink.
    pub fn console_text(&self) -> (s: String)
        ensures
            s@ == "[dmx-backend] "@ + self.text@,
    {
        String::from_str("[dmx-backend] ").concat(self.text.as_str())
    }
}

} // verus!
