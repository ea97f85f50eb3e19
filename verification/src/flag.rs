//! The debug flag: the boolean switch that decides whether traces are emitted.
//!
//! The embedding program creates one flag at start-up (its initial value is
//! derived from the build configuration, see [`DebugFlag::new`]) and keeps it
//! wherever its call sites can reach it — typically behind a process-wide
//! atomic or lock, which the program owns. The library itself only reads and
//! overwrites the value it is handed.

use vstd::prelude::*;

verus! {

/// The switch for all trace emission: a single boolean, off or on.
pub struct DebugFlag {
    enabled: bool,
}

impl View for DebugFlag {
    type V = bool;

    closed spec fn view(&self) -> bool {
        self.enabled
    }
}

impl DebugFlag {
    /// Creates the flag with its initial value: debug output must be compiled
    /// in, and the build must be a debug or a test build.
    pub fn new(compiled_in: bool, debug_build: bool, test_build: bool) -> (flag: DebugFlag)
        ensures
            flag@ == (compiled_in && (debug_build || test_build)),
    {
        DebugFlag { enabled: compiled_in && (debug_build || test_build) }
    }
}

/// What `set_debug` does to the flag: the new value is `enabled`, whatever
/// the old value was.
pub open spec fn set_debug_updates(pre: DebugFlag, post: DebugFlag, enabled: bool) -> bool {
    post@ == enabled
}

/// What `is_debug` returns: the flag's current value.
pub open spec fn is_debug_returns(flag: DebugFlag, debug: bool) -> bool {
    debug == flag@
}

/// Force debugging on or off. Unconditionally overwrites the flag; there are
/// no error conditions.
pub fn set_debug(flag: &mut DebugFlag, enabled: bool)
    ensures
        set_debug_updates(*old(flag), *final(flag), enabled),
{
    flag.enabled = enabled;
}

/// Report current debugging status. Never blocks, never fails.
pub fn is_debug(flag: &DebugFlag) -> (debug: bool)
    ensures
        is_debug_returns(*flag, debug),
{
    flag.enabled
}

/// Law: for every boolean `b`, setting the flag to `b` and then reading it
/// yields `b`.
pub proof fn lemma_set_then_is_debug(pre: DebugFlag, mid: DebugFlag, b: bool, read: bool)
    requires
        set_debug_updates(pre, mid, b),
        is_debug_returns(mid, read),
    ensures
        read == b,
{
}

/// Law: setting the flag to the same value twice in a row leaves the same
/// observable state as setting it once.
pub proof fn lemma_set_debug_idempotent(
    pre: DebugFlag,
    once: DebugFlag,
    twice: DebugFlag,
    b: bool,
)
    requires
        set_debug_updates(pre, once, b),
        set_debug_updates(once, twice, b),
    ensures
        twice@ == once@,
{
}

} // verus!
