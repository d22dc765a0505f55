//! Messages crossing the boundary between the two execution contexts.
//!
//! The transport delivers opaque payloads; a receiver learns what arrived
//! only by a dynamic type check. That check is modeled as a tagged union:
//! decoding yields the expected variant or a decode fault, never a bare
//! throw. A transferable payload must additionally be listed in the
//! message's transfer list, or the runtime rejects the send — listing it is
//! what moves ownership instead of copying.

use vstd::prelude::*;
use crate::surface::Surface;

verus! {

/// What a message can carry across the context boundary.
pub enum Payload {
    /// The transferable surface itself.
    Surface(Surface),
    /// An empty array: the worker's readiness signal. Its content is never
    /// inspected by the receiver, only its arrival.
    EmptyArray,
    /// Any other host value.
    Other,
}

/// One message as handed to the transport: a payload together with the
/// fact of whether the payload was listed in the transfer list.
pub struct Envelope {
    pub payload: Payload,
    /// Whether the payload appears in the message's transfer list.
    pub transfer_listed: bool,
}

impl Envelope {
    /// The transport's send-side rule: a transferable payload must be
    /// listed for transfer, or the send is rejected.
    pub open spec fn send_accepted(self) -> bool {
        self.payload is Surface ==> self.transfer_listed
    }
}

/// Builds the worker's readiness signal: an empty array, nothing listed
/// for transfer.
pub fn make_ready_signal() -> (e: Envelope)
    ensures
        e.payload is EmptyArray,
        !e.transfer_listed,
        e.send_accepted(),
{
    Envelope { payload: Payload::EmptyArray, transfer_listed: false }
}

/// Wraps the surface for sending: the payload is the surface, and the same
/// surface is listed in the transfer list, so the send moves ownership.
pub fn make_surface_message(surface: Surface) -> (e: Envelope)
    ensures
        e.payload == Payload::Surface(surface),
        e.transfer_listed,
        e.send_accepted(),
{
    Envelope { payload: Payload::Surface(surface), transfer_listed: true }
}

} // verus!
