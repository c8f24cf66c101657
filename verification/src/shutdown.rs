//! The shutdown coordination state machine.
//!
//! One piece of process-wide lifecycle state: a flag that starts clear and
//! is set by the first external interrupt. The first interrupt asks for a
//! graceful shutdown and wakes the blocked main context; a second interrupt
//! observed while the flag is already set escalates to a forced termination.
//! The binary runs this machine behind a lock, so the set-and-check of
//! `on_interrupt` is one atomic step; the policy itself is decided here.

use vstd::prelude::*;

verus! {

/// What the signal-handling context must do after an interrupt arrives.
#[derive(Clone, Copy, PartialEq, Eq, Structural, Debug)]
pub enum SignalAction {
    /// First interrupt: wake the main context so it can unwind gracefully.
    WakeMain,
    /// Repeated interrupt: terminate the process at once, non-zero status.
    TerminateForced,
}

/// The lifecycle flag: `requested` is false while running and true once a
/// shutdown has been requested.
pub struct ShutdownState {
    requested: bool,
}

/// The transition relation of the coordinator: an interrupt always leaves
/// the flag set, and the chosen action tells a first interrupt (wake) from
/// a repeated one (forced termination).
pub open spec fn interrupt_transition(
    pre: ShutdownState,
    post: ShutdownState,
    action: SignalAction,
) -> bool {
    &&& post.spec_requested()
    &&& action == (if pre.spec_requested() {
        SignalAction::TerminateForced
    } else {
        SignalAction::WakeMain
    })
}

impl ShutdownState {
    /// Whether a shutdown has been requested.
    pub closed spec fn spec_requested(self) -> bool {
        self.requested
    }

    /// A fresh coordinator: still running, no shutdown requested.
    pub fn new() -> (s: Self)
        ensures
            !s.spec_requested(),
    {
        ShutdownState { requested: false }
    }

    /// Record one external interrupt. This is the swap-and-check step: the
    /// flag is set unconditionally and the action is decided by the value
    /// the flag held before, so a second interrupt reliably sees the first.
    pub fn on_interrupt(&mut self) -> (action: SignalAction)
        ensures
            interrupt_transition(*old(self), *final(self), action),
    {
        let was_requested = self.requested;
        self.requested = true;
        if was_requested {
            SignalAction::TerminateForced
        } else {
            SignalAction::WakeMain
        }
    }

    /// Whether a shutdown has been requested, as the main context reads it.
    pub fn is_requested(&self) -> (r: bool)
        ensures
            r == self.spec_requested(),
    {
        self.requested
    }

    /// The main context's park decision: keep blocking only while no
    /// shutdown has been requested. A wake can happen for unrelated
    /// reasons, so the caller re-tests this after every wake.
    pub fn main_should_block(&self) -> (r: bool)
        ensures
            r == !self.spec_requested(),
    {
        !self.requested
    }
}

/// The flag is monotonic: an interrupt never clears it, so once a shutdown
/// has been requested every later state still has it requested, and every
/// later interrupt escalates to a forced termination.
pub proof fn lemma_shutdown_flag_monotonic(
    pre: ShutdownState,
    post: ShutdownState,
    action: SignalAction,
)
    requires
        interrupt_transition(pre, post, action),
    ensures
        post.spec_requested(),
        pre.spec_requested() ==> action == SignalAction::TerminateForced,
        !pre.spec_requested() ==> action == SignalAction::WakeMain,
{
}

} // verus!
