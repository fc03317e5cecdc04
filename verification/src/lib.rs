//! Adapter boundary for a native add-on: the entry points a host process
//! invokes, with the state they act on made explicit.
//!
//! The host-facing glue (the foreign-function attribute, the asynchronous
//! call convention, diagnostic printing) lives outside this crate; what
//! stands here is every decision and computation those entry points
//! perform, each with its contract.

use vstd::prelude::*;

verus! {

/// The two states of the process-wide tracing subsystem.
#[derive(Clone, Copy, Debug, PartialEq, Eq, Structural)]
pub enum TracingState {
    Uninitialized,
    Initialized,
}

/// Caller-owned handle standing for the tracing subsystem's lifecycle,
/// in place of an ambient process-wide flag.
pub struct Tracing {
    pub state: TracingState,
}

/// What `init_tracing` does to the tracing state: it is initialized
/// afterwards, whatever it was before.
pub open spec fn init_transition(s: TracingState) -> TracingState {
    TracingState::Initialized
}

/// What `shutdown_tracing` does to the tracing state: it is uninitialized
/// afterwards, whatever it was before.
pub open spec fn shutdown_transition(s: TracingState) -> TracingState {
    TracingState::Uninitialized
}

/// The status line the library reports to the host.
pub open spec fn status_text() -> Seq<char> {
    "rsdk core ready"@
}

impl Tracing {
    /// A fresh handle: tracing starts uninitialized.
    pub fn new() -> (t: Tracing)
        ensures
            t.state == TracingState::Uninitialized,
    {
        Tracing { state: TracingState::Uninitialized }
    }
}

/// Status entry point: a human-readable description of the library's
/// status. It is always the same non-empty line, so repeated calls with
/// no intervening state change agree.
pub fn check_rsdk_status() -> (r: String)
    ensures
        r@ == status_text(),
        r@.len() > 0,
{
    proof {
        reveal_strlit("rsdk core ready");
    }
    String::from_str("rsdk core ready")
}

/// Brings process-wide tracing up on the given handle.
pub fn init_tracing(t: &mut Tracing)
    ensures
        final(t).state == init_transition(old(t).state),
{
    t.state = TracingState::Initialized;
}

/// Takes process-wide tracing down on the given handle.
pub fn shutdown_tracing(t: &mut Tracing)
    ensures
        final(t).state == shutdown_transition(old(t).state),
{
    t.state = TracingState::Uninitialized;
}

/// The computation behind the asynchronous entry point: the input
/// doubled. Inputs whose double does not fit in `i32` are outside the
/// domain; what to do with them is the boundary's decision.
pub fn heavy_compute(input: i32) -> (r: i32)
    requires
        i32::MIN / 2 <= input <= i32::MAX / 2,
    ensures
        r == 2 * input,
{
    input * 2
}

/// Initializing tracing and then shutting it down restores an
/// uninitialized state: the round trip leaves no observable change.
pub proof fn lemma_init_then_shutdown_restores(s: TracingState)
    requires
        s == TracingState::Uninitialized,
    ensures
        shutdown_transition(init_transition(s)) == s,
{
}

/// The status line is fixed and non-empty: any two results that meet
/// `check_rsdk_status`'s contract are equal, and neither is empty.
pub proof fn lemma_status_idempotent(a: Seq<char>, b: Seq<char>)
    requires
        a == status_text(),
        b == status_text(),
    ensures
        a == b,
        a.len() > 0,
{
    reveal_strlit("rsdk core ready");
}

} // verus!
