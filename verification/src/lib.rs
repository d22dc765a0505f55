//! Verified model of a cross-context rendering-surface handoff.
//!
//! A main browser context creates a canvas sized to a fixed viewport, turns
//! it into a transferable offscreen surface, and hands ownership of that
//! surface to a worker context over an ordered message channel. The worker
//! signals readiness first, receives the surface, and bootstraps a reduced
//! plugin set of a rendering engine around it to draw a fixed scene once.
//!
//! The host environment (DOM, worker spawning, message transport) and the
//! engine itself are opaque collaborators; they are modeled here as plain
//! data so that the handoff protocol, the window-substitute fix-up and the
//! static scene are stated and proved independently of a live browser.

pub mod bootstrap;
pub mod dom;
pub mod frame;
pub mod launcher;
pub mod message;
pub mod plugins;
pub mod protocol;
pub mod scene;
pub mod script;
pub mod surface;
pub mod worker;
