//! The main-context side of the handoff.
//!
//! The main context owns the surface it created and a handle to the worker
//! it spawned. It sends exactly one message — the surface, listed for
//! transfer — and only after the worker's readiness signal has arrived.
//! Sending moves the surface out of the context: afterwards the main
//! context holds no access to it, and any further use fails.

use vstd::prelude::*;
use crate::message::Envelope;
use crate::message::Payload;
use crate::message::make_surface_message;
use crate::surface::Surface;
use crate::surface::SurfaceDesc;

verus! {

/// Where the main context stands in the handoff.
#[derive(Clone, Copy, PartialEq, Eq, Structural, Debug)]
pub enum MainPhase {
    /// Waiting for the worker's readiness signal; the surface is still held.
    AwaitingReady,
    /// The surface has been sent; the context holds it no longer.
    SurfaceSent,
}

/// Why a use of the surface was refused.
#[derive(Clone, Copy, PartialEq, Eq, Structural, Debug)]
pub struct SurfaceRevoked;

/// The main context: its phase and whatever access to the surface remains.
pub struct MainCtx {
    pub phase: MainPhase,
    /// The surface, while this context still owns it.
    pub surface: Option<Surface>,
}

impl MainCtx {
    /// The context's invariant: it holds the surface exactly until the
    /// send, and never afterwards.
    pub open spec fn wf(self) -> bool {
        &&& self.phase is AwaitingReady ==> self.surface is Some
        &&& self.phase is SurfaceSent ==> self.surface is None
    }

    /// True while the context can still reach the surface.
    pub open spec fn has_surface_access(self) -> bool {
        self.surface is Some
    }
}

/// Enters the handoff: the main context holds the freshly created surface
/// and waits for the worker to signal readiness.
pub fn main_ctx_new(surface: Surface) -> (c: MainCtx)
    ensures
        c.wf(),
        c.phase is AwaitingReady,
        c.surface == Some(surface),
{
    MainCtx { phase: MainPhase::AwaitingReady, surface: Some(surface) }
}

/// Reacts to a message from the worker. The content of the message is not
/// inspected — its arrival is the readiness signal. On the first signal the
/// surface is wrapped for transfer and handed back for sending, and the
/// context loses access to it; any later signal changes nothing and sends
/// nothing, since the one permitted message is already out.
pub fn main_on_worker_message(ctx: &mut MainCtx) -> (r: Option<Envelope>)
    requires
        old(ctx).wf(),
    ensures
        final(ctx).wf(),
        old(ctx).phase is AwaitingReady ==> {
            &&& r matches Some(e) && e.payload == Payload::Surface(
                old(ctx).surface->Some_0,
            ) && e.transfer_listed && e.send_accepted()
            &&& final(ctx).phase is SurfaceSent
            &&& !final(ctx).has_surface_access()
        },
        old(ctx).phase is SurfaceSent ==> r is None && *final(ctx) == *old(ctx),
{
    match ctx.phase {
        MainPhase::AwaitingReady => {
            let surface = ctx.surface.take();
            let surface = match surface {
                Some(s) => s,
                None => vstd::pervasive::unreached(),
            };
            ctx.phase = MainPhase::SurfaceSent;
            Some(make_surface_message(surface))
        },
        MainPhase::SurfaceSent => None,
    }
}

/// Attempts to read the surface from the main context, as any later use of
/// the surface would. It succeeds exactly while the context still owns the
/// surface; after the transfer it fails.
pub fn try_use_surface(ctx: &MainCtx) -> (r: Result<SurfaceDesc, SurfaceRevoked>)
    ensures
        r is Ok <==> ctx.has_surface_access(),
        r matches Ok(d) ==> d == ctx.surface->Some_0.spec_descriptor(),
{
    match &ctx.surface {
        Some(s) => Ok(s.descriptor()),
        None => Err(SurfaceRevoked),
    }
}

/// Once the surface is sent, the main context's access to it is gone: in
/// every well-formed context that has sent, any use of the surface fails.
pub proof fn lemma_transfer_revokes_access(ctx: MainCtx)
    requires
        ctx.wf(),
        ctx.phase is SurfaceSent,
    ensures
        !ctx.has_surface_access(),
{
}

} // verus!
