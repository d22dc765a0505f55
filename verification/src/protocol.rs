//! The handoff protocol as a whole: its run and its ordering laws.
//!
//! Two independent single-threaded event loops exchange at-most-once,
//! ordered messages: the worker posts one readiness signal, the main
//! context answers with the surface, listed for transfer, and the worker
//! renders once. [`run_handoff`] plays the one legal interleaving of the
//! two machines over a modeled host environment and proves what it leaves
//! behind. The transition system below states the ordering laws over
//! every interleaving the transport allows: the readiness signal is posted
//! exactly once, before the surface is sent, and the surface is sent at
//! most once.

use vstd::prelude::*;
use crate::dom::DomEnv;
use crate::dom::LaunchError;
use crate::dom::expected_launch_error;
use crate::frame::FrameRun;
use crate::launcher::MainCtx;
use crate::launcher::main_ctx_new;
use crate::launcher::main_on_worker_message;
use crate::message::Payload;
use crate::surface::SurfaceDesc;
use crate::surface::VIEWPORT_HEIGHT;
use crate::surface::VIEWPORT_WIDTH;
use crate::worker::WorkerCtx;
use crate::worker::worker_init;
use crate::worker::worker_on_message;

verus! {

/// One message observed on the channel between the contexts, in order.
#[derive(Clone, Copy, PartialEq, Eq, Structural, Debug)]
pub enum WireEvent {
    /// The worker's readiness signal reached the main context.
    WorkerReady,
    /// The surface message reached the worker.
    SurfaceSent,
}

/// Everything a completed handoff leaves behind.
pub struct HandoffOutcome {
    /// The messages that crossed the channel, in order.
    pub log: Vec<WireEvent>,
    /// The main context, after sending the surface away.
    pub main: MainCtx,
    /// The worker context, idle after its one render pass.
    pub worker: WorkerCtx,
    /// The completed render pass.
    pub frame: FrameRun,
}

/// The description of the surface both contexts agree on.
pub open spec fn viewport_desc() -> SurfaceDesc {
    SurfaceDesc { width: VIEWPORT_WIDTH, height: VIEWPORT_HEIGHT }
}

/// Runs the whole handoff over the given host environment: the canvas is
/// created and appended, the worker spawned and its readiness awaited, the
/// surface transferred, validated, and rendered into once. In a valid
/// environment the run succeeds, exactly two messages cross the channel —
/// readiness, then the surface — the main context's access to the surface
/// is gone, and the worker is idle after one pass over the viewport-sized
/// surface with the fixed scene in place. In an invalid environment the
/// launch aborts with the fault of the first absent host object.
pub fn run_handoff(env: &mut DomEnv) -> (r: Result<HandoffOutcome, LaunchError>)
    ensures
        old(env).valid() <==> r is Ok,
        !old(env).valid() ==> {
            &&& *final(env) == *old(env)
            &&& r == Err::<HandoffOutcome, LaunchError>(expected_launch_error(*old(env)))
        },
        r matches Ok(out) ==> {
            &&& final(env).body_canvases@ == old(env).body_canvases@.push(
                crate::dom::CanvasElement { width: VIEWPORT_WIDTH, height: VIEWPORT_HEIGHT },
            )
            &&& out.log@ == seq![WireEvent::WorkerReady, WireEvent::SurfaceSent]
            &&& out.main.wf()
            &&& out.main.phase is SurfaceSent
            &&& !out.main.has_surface_access()
            &&& out.worker.phase is Rendered
            &&& out.frame.is_single_pass_over(viewport_desc())
        },
{
    let surface = match crate::dom::create_viewport_surface(env) {
        Ok(s) => s,
        Err(e) => {
            return Err(e);
        },
    };
    let mut log: Vec<WireEvent> = Vec::new();

    // The worker starts, installs its message handler, and posts its one
    // readiness signal; the transport delivers it to the main context.
    let (mut worker, ready) = worker_init();
    let mut main = main_ctx_new(surface);
    log.push(WireEvent::WorkerReady);

    // On the readiness signal the main context wraps the surface for
    // transfer and sends it; the transport delivers it to the worker.
    let envelope = match main_on_worker_message(&mut main) {
        Some(e) => e,
        None => vstd::pervasive::unreached(),
    };
    log.push(WireEvent::SurfaceSent);

    // The worker validates the payload and runs its single render pass.
    let frame = match worker_on_message(&mut worker, envelope) {
        Ok(f) => f,
        Err(_) => vstd::pervasive::unreached(),
    };
    proof {
        assert(log@ =~= seq![WireEvent::WorkerReady, WireEvent::SurfaceSent]);
    }
    Ok(HandoffOutcome { log, main, worker, frame })
}

/// The protocol's ghost model: how many of each message each side has
/// posted or received, and whether the worker's handler is installed.
pub struct HandoffModel {
    /// Whether the worker has installed its message handler.
    pub worker_listening: bool,
    /// Readiness signals the worker has posted.
    pub ready_posted: nat,
    /// Readiness signals the main context has received.
    pub ready_received: nat,
    /// Surface messages the main context has sent.
    pub surface_sent: nat,
    /// Surface messages the worker has received.
    pub surface_received: nat,
}

/// The initial state: nothing posted, nothing received, nobody listening.
pub open spec fn model_init(s: HandoffModel) -> bool {
    &&& !s.worker_listening
    &&& s.ready_posted == 0
    &&& s.ready_received == 0
    &&& s.surface_sent == 0
    &&& s.surface_received == 0
}

/// The worker starts: it installs its handler and only then posts its one
/// readiness signal.
pub open spec fn step_worker_start(s: HandoffModel, t: HandoffModel) -> bool {
    &&& s.ready_posted == 0
    &&& t == HandoffModel { worker_listening: true, ready_posted: 1, ..s }
}

/// The ordered channel delivers a posted readiness signal to the main
/// context.
pub open spec fn step_deliver_ready(s: HandoffModel, t: HandoffModel) -> bool {
    &&& s.ready_received < s.ready_posted
    &&& t == HandoffModel { ready_received: s.ready_received + 1, ..s }
}

/// The main context sends the surface: only upon a received readiness
/// signal, and only once.
pub open spec fn step_main_send_surface(s: HandoffModel, t: HandoffModel) -> bool {
    &&& s.ready_received >= 1
    &&& s.surface_sent == 0
    &&& t == HandoffModel { surface_sent: 1, ..s }
}

/// The ordered channel delivers a sent surface message to the worker.
pub open spec fn step_deliver_surface(s: HandoffModel, t: HandoffModel) -> bool {
    &&& s.surface_received < s.surface_sent
    &&& t == HandoffModel { surface_received: s.surface_received + 1, ..s }
}

/// Any one step of either context or of the channel.
pub open spec fn model_next(s: HandoffModel, t: HandoffModel) -> bool {
    ||| step_worker_start(s, t)
    ||| step_deliver_ready(s, t)
    ||| step_main_send_surface(s, t)
    ||| step_deliver_surface(s, t)
}

/// The protocol's ordering invariant: the readiness signal is posted at
/// most once and only by a listening worker; nothing is received that was
/// not sent; and the surface is sent at most once, and only after the one
/// readiness signal was posted and received.
pub open spec fn model_inv(s: HandoffModel) -> bool {
    &&& s.ready_posted <= 1
    &&& s.ready_posted == 1 ==> s.worker_listening
    &&& s.ready_received <= s.ready_posted
    &&& s.surface_sent <= 1
    &&& s.surface_received <= s.surface_sent
    &&& s.surface_sent == 1 ==> s.ready_received == 1 && s.ready_posted == 1
}

/// The invariant holds initially.
pub proof fn lemma_model_inv_init(s: HandoffModel)
    requires
        model_init(s),
    ensures
        model_inv(s),
{
}

/// The invariant is preserved by every step either context or the channel
/// can take.
pub proof fn lemma_model_inv_next(s: HandoffModel, t: HandoffModel)
    requires
        model_inv(s),
        model_next(s, t),
    ensures
        model_inv(t),
{
}

/// The ordering law of the handoff: in every reachable state in which the
/// surface has been sent, the worker had already posted its one readiness
/// signal, the main context had received it, and the worker was listening
/// — the surface is never sent before readiness, and never twice.
pub proof fn lemma_surface_sent_after_ready(s: HandoffModel)
    requires
        model_inv(s),
        s.surface_sent >= 1,
    ensures
        s.surface_sent == 1,
        s.ready_posted == 1,
        s.ready_received == 1,
        s.worker_listening,
{
}

/// The model is not vacuous: the intended run — worker start, readiness
/// delivered, surface sent, surface delivered — is a legal sequence of
/// steps from the initial state, and it completes the handoff.
pub proof fn lemma_intended_run_is_legal()
    ensures
        exists|s0: HandoffModel, s1: HandoffModel, s2: HandoffModel, s3: HandoffModel, s4:
            HandoffModel|
            #![trigger step_worker_start(s0, s1), step_deliver_ready(s1, s2),
                step_main_send_surface(s2, s3), step_deliver_surface(s3, s4)]
            {
                &&& model_init(s0)
                &&& step_worker_start(s0, s1)
                &&& step_deliver_ready(s1, s2)
                &&& step_main_send_surface(s2, s3)
                &&& step_deliver_surface(s3, s4)
                &&& s4.surface_received == 1
            },
{
    let s0 = HandoffModel {
        worker_listening: false,
        ready_posted: 0,
        ready_received: 0,
        surface_sent: 0,
        surface_received: 0,
    };
    let s1 = HandoffModel { worker_listening: true, ready_posted: 1, ..s0 };
    let s2 = HandoffModel { ready_received: 1, ..s1 };
    let s3 = HandoffModel { surface_sent: 1, ..s2 };
    let s4 = HandoffModel { surface_received: 1, ..s3 };
    assert(model_init(s0));
    assert(step_worker_start(s0, s1));
    assert(step_deliver_ready(s1, s2));
    assert(step_main_send_surface(s2, s3));
    assert(step_deliver_surface(s3, s4));
}

} // verus!
