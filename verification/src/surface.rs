//! The transferable drawing surface and the fixed viewport size.
//!
//! A [`Surface`] stands for an offscreen canvas: a drawable region that is
//! owned by exactly one execution context at a time. The type is deliberately
//! not `Clone` and not `Copy`, so that handing a surface to another context
//! moves it and the sender keeps no access — the transfer semantics of the
//! underlying host object, expressed through ownership.
//!
//! A [`SurfaceDesc`] is a plain copyable description of a surface (its size),
//! the sort of reference-like handle the engine keeps once the surface has
//! been attached to its window entity.

use vstd::prelude::*;

verus! {

/// Width, in pixels, of the viewport both contexts agree on.
pub const VIEWPORT_WIDTH: u32 = 1280;

/// Height, in pixels, of the viewport both contexts agree on.
pub const VIEWPORT_HEIGHT: u32 = 720;

/// A transferable offscreen drawing surface, owned by one context at a time.
pub struct Surface {
    pub width: u32,
    pub height: u32,
}

/// A copyable description of a surface: what the engine records about the
/// render target after the surface itself has been attached.
#[derive(Clone, Copy, PartialEq, Eq, Structural, Debug)]
pub struct SurfaceDesc {
    pub width: u32,
    pub height: u32,
}

impl Surface {
    /// True of a surface sized to the agreed viewport.
    pub open spec fn is_viewport_sized(self) -> bool {
        self.width == VIEWPORT_WIDTH && self.height == VIEWPORT_HEIGHT
    }

    /// The copyable description of this surface.
    pub open spec fn spec_descriptor(self) -> SurfaceDesc {
        SurfaceDesc { width: self.width, height: self.height }
    }

    /// Reads the size of the surface without taking it.
    pub fn descriptor(&self) -> (d: SurfaceDesc)
        ensures
            d == self.spec_descriptor(),
    {
        SurfaceDesc { width: self.width, height: self.height }
    }
}

} // verus!
