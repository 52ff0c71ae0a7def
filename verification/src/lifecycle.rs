//! The production loop's lifecycle: `Created → Running → Stopped`, driven by
//! a start request, a monotonic cancellation flag, and the outcome of each
//! publish.
//!
//! The loop itself — the thread, the tick timer, the sink — lives in the
//! hosting environment; every decision it takes goes through this state
//! machine. The flag is set once and never reset: a second stop request
//! changes nothing, and a stop request before the loop ever started is a
//! safe no-op.

use vstd::prelude::*;

verus! {

/// Where the production loop stands.
#[derive(Clone, Copy, Debug, PartialEq, Eq, Structural)]
pub enum Phase {
    /// The loop has not been started yet.
    Created,
    /// The loop runs; a set cancellation flag makes it exit at the next
    /// observation point.
    Running,
    /// The loop has exited and never produces again.
    Stopped,
}

/// The shared control word of one production loop: its phase and the
/// cancellation flag. One writer sets the flag, the loop reads it; the flag
/// only ever goes from clear to set.
#[derive(Clone, Copy, Debug, PartialEq, Eq, Structural)]
pub struct LoopControl {
    /// Where the loop stands.
    pub phase: Phase,
    /// Whether a stop has been requested of a running loop.
    pub cancel: bool,
}

/// What a stop request leaves behind: a running loop keeps running with the
/// flag set, and is left to exit on its own; in any other phase nothing
/// changes — before a start the request is a no-op, and after the loop
/// exited there is nothing left to cancel.
pub open spec fn stop_requested(c: LoopControl) -> LoopControl {
    if c.phase is Running {
        LoopControl { phase: Phase::Running, cancel: true }
    } else {
        c
    }
}

impl LoopControl {
    /// The control word of a loop that was never started.
    pub fn new() -> (c: LoopControl)
        ensures
            c.phase is Created,
            !c.cancel,
    {
        LoopControl { phase: Phase::Created, cancel: false }
    }

    /// Takes the one `Created → Running` transition. The host must spawn
    /// the loop thread exactly when this is called; calling it twice for
    /// one loop is a caller error and is ruled out here.
    pub fn request_start(&mut self)
        requires
            old(self).phase is Created,
        ensures
            final(self).phase is Running,
            final(self).cancel == old(self).cancel,
    {
        self.phase = Phase::Running;
    }

    /// Requests cancellation: sets the flag of a running loop and returns
    /// immediately, without waiting for the loop to exit; anywhere else it
    /// is a no-op. Asking twice is the same as asking once.
    pub fn request_stop(&mut self)
        ensures
            *final(self) == stop_requested(*old(self)),
    {
        if matches!(self.phase, Phase::Running) {
            self.cancel = true;
        }
    }

    /// The loop's per-tick observation point: reports whether cancellation
    /// was requested, and on a set flag takes the `Running → Stopped`
    /// transition — the loop must exit exactly when this returns true.
    pub fn observe_cancel(&mut self) -> (exit: bool)
        requires
            old(self).phase is Running,
        ensures
            exit == old(self).cancel,
            final(self).cancel == old(self).cancel,
            final(self).phase == if exit {
                Phase::Stopped
            } else {
                Phase::Running
            },
    {
        if self.cancel {
            self.phase = Phase::Stopped;
            true
        } else {
            false
        }
    }

    /// The loop's decision after handing one payload to the sink: on a
    /// delivered payload or a transient failure the loop goes on; a
    /// permanent failure (the receiving side is gone) ends the loop for
    /// good — the call reports whether the loop may continue.
    pub fn after_publish(&mut self, outcome: PublishOutcome) -> (go_on: bool)
        requires
            old(self).phase is Running,
        ensures
            go_on == !(outcome is ReceiverGone),
            final(self).cancel == old(self).cancel,
            final(self).phase == if go_on {
                Phase::Running
            } else {
                Phase::Stopped
            },
    {
        match outcome {
            PublishOutcome::Delivered => true,
            PublishOutcome::TransientFailure => true,
            PublishOutcome::ReceiverGone => {
                self.phase = Phase::Stopped;
                false
            },
        }
    }
}

/// How the external sink answered one publish, as reported by the host.
#[derive(Clone, Copy, Debug, PartialEq, Eq, Structural)]
pub enum PublishOutcome {
    /// The payload was accepted.
    Delivered,
    /// The sink failed this once; the failure is logged and the loop goes on.
    TransientFailure,
    /// The receiving side has shut down; no later publish can succeed.
    ReceiverGone,
}

} // verus!
