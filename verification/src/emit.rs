//! The emitter: checks the debug flag for one trace call and appends the
//! rendered line to a sink — a caller-owned string buffer, or the process
//! error stream behind a locked handle so that concurrent callers' lines
//! never interleave.

use vstd::prelude::*;
use vstd::string::StringExecFns;

use crate::flag::{DebugFlag, is_debug};
use crate::render::{TraceValue, label_view, render_trace_line, trace_line};

verus! {

/// Writes one trace record to `sink` when the flag is on: exactly the line of
/// [`trace_line`], appended in one piece. When the flag is off, the call is a
/// no-op — the sink is untouched and no line is rendered. A record without a
/// label carries no values.
pub fn trace(flag: &DebugFlag, sink: &mut String, label: Option<&str>, values: &Vec<TraceValue>)
    requires
        label is Some || values@.len() == 0,
    ensures
        flag@ ==> final(sink)@ == old(sink)@ + trace_line(label_view(label), values@),
        !flag@ ==> final(sink)@ == old(sink)@,
{
    if is_debug(flag) {
        let line = render_trace_line(label, values);
        sink.append(line.as_str());
    }
}

/// Relies on `std::io::Stderr`: `lock` holds the stream's exclusive handle
/// while `write_all` writes every byte of `line` through it, so the whole
/// line reaches the stream contiguously even under concurrent callers.
/// Aborts (panics) when the write fails: a broken diagnostic stream is fatal.
#[verifier::external_body]
fn write_stderr_line(line: &str) {
    let stderr = std::io::stderr();
    let mut handle = stderr.lock();
    std::io::Write::write_all(&mut handle, line.as_bytes()).unwrap();
}

/// Writes one trace record to the process error stream when the flag is on:
/// exactly the line of [`trace_line`], written as one locked, contiguous
/// write. When the flag is off, the call is a no-op — nothing is rendered or
/// written. A record without a label carries no values.
pub fn trace_stderr(flag: &DebugFlag, label: Option<&str>, values: &Vec<TraceValue>)
    requires
        label is Some || values@.len() == 0,
{
    if is_debug(flag) {
        let line = render_trace_line(label, values);
        write_stderr_line(line.as_str());
    }
}

} // verus!
