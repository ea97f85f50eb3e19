//! A minimal conditional debug-tracing facility.
//!
//! A [`flag::DebugFlag`] governs all tracing: when it is off, a trace call
//! leaves its sink untouched and does no formatting work. When it is on,
//! one call renders a single line — `debug`, `debug: <label>`, or
//! `debug: <label>: <v0>, <v1>, ...` — terminated by a newline, and appends
//! it to the sink in one piece. Sinks are a caller-owned string buffer
//! ([`emit::trace`]) or the process error stream ([`emit::trace_stderr`]),
//! where a locked handle keeps concurrent callers' lines from interleaving.

pub mod emit;
pub mod flag;
pub mod render;
