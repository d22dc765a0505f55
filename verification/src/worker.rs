//! The worker-context side of the handoff.
//!
//! On startup the worker installs its message handler and only then posts
//! a single readiness signal — sending the surface before the worker is
//! listening would lose the message. When a message arrives, the worker
//! validates that the payload really is the transferable surface; anything
//! else is an unrecoverable startup fault and the worker aborts rather
//! than proceeding. A valid surface is rendered into by one single-pass
//! engine run, after which the worker is idle.

use vstd::prelude::*;
use crate::frame::FrameRun;
use crate::frame::single_pass;
use crate::message::Envelope;
use crate::message::Payload;
use crate::message::make_ready_signal;

verus! {

/// Where the worker context stands in the handoff.
#[derive(Clone, Copy, PartialEq, Eq, Structural, Debug)]
pub enum WorkerPhase {
    /// Listening, readiness signalled, surface not yet arrived.
    AwaitingSurface,
    /// The one render pass has completed; the worker is idle.
    Rendered,
    /// A malformed handoff was received; the worker aborted.
    Aborted,
}

/// Why the worker aborted.
#[derive(Clone, Copy, PartialEq, Eq, Structural, Debug)]
pub enum WorkerError {
    /// The received payload was not the transferable surface.
    UnexpectedPayload,
}

/// The worker context.
pub struct WorkerCtx {
    pub phase: WorkerPhase,
}

/// Starts the worker: the message handler is in place, and the readiness
/// signal to post is handed back. The signal is posted exactly once, at
/// startup, before any message can be received.
pub fn worker_init() -> (r: (WorkerCtx, Envelope))
    ensures
        r.0.phase is AwaitingSurface,
        r.1.payload is EmptyArray,
        !r.1.transfer_listed,
        r.1.send_accepted(),
{
    (WorkerCtx { phase: WorkerPhase::AwaitingSurface }, make_ready_signal())
}

/// Reacts to the one message of the handoff. A surface payload is accepted
/// and rendered by a single engine pass; any other payload aborts the
/// worker. Exactly one handoff occurs, so the worker is still awaiting the
/// surface when the message arrives.
pub fn worker_on_message(ctx: &mut WorkerCtx, msg: Envelope) -> (r: Result<FrameRun, WorkerError>)
    requires
        old(ctx).phase is AwaitingSurface,
    ensures
        msg.payload matches Payload::Surface(s) ==> {
            &&& r matches Ok(run) && run.is_single_pass_over(s.spec_descriptor())
            &&& final(ctx).phase is Rendered
        },
        !(msg.payload is Surface) ==> {
            &&& r == Err::<FrameRun, WorkerError>(WorkerError::UnexpectedPayload)
            &&& final(ctx).phase is Aborted
        },
{
    match msg.payload {
        Payload::Surface(surface) => {
            let run = single_pass(surface);
            ctx.phase = WorkerPhase::Rendered;
            Ok(run)
        },
        _ => {
            ctx.phase = WorkerPhase::Aborted;
            Err(WorkerError::UnexpectedPayload)
        },
    }
}

} // verus!
