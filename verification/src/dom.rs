//! The main context's view of the host page, as an injected environment.
//!
//! The launcher needs a window, a document and a body to exist; it creates
//! one canvas element sized to the fixed viewport, appends it to the body,
//! and converts it to a transferable offscreen surface. Any absent host
//! object is an unrecoverable startup fault. The host page is modeled as
//! plain data so this step is stated and proved without a live browser.

use vstd::prelude::*;
use crate::surface::Surface;
use crate::surface::VIEWPORT_HEIGHT;
use crate::surface::VIEWPORT_WIDTH;

verus! {

/// One canvas element attached to the page's body.
#[derive(Clone, Copy, PartialEq, Eq, Structural, Debug)]
pub struct CanvasElement {
    pub width: u32,
    pub height: u32,
}

/// The host page: which of the required objects exist, and the canvas
/// elements attached to the body, in document order.
pub struct DomEnv {
    pub has_window: bool,
    pub has_document: bool,
    pub has_body: bool,
    pub body_canvases: Vec<CanvasElement>,
}

/// Why the launcher aborted: which host object was absent.
#[derive(Clone, Copy, PartialEq, Eq, Structural, Debug)]
pub enum LaunchError {
    NoWindow,
    NoDocument,
    NoBody,
}

impl DomEnv {
    /// A valid environment has a window, a document and a body.
    pub open spec fn valid(self) -> bool {
        self.has_window && self.has_document && self.has_body
    }
}

/// The fault an invalid environment produces: the first absent host
/// object, in the order the launcher reaches for them.
pub open spec fn expected_launch_error(env: DomEnv) -> LaunchError {
    if !env.has_window {
        LaunchError::NoWindow
    } else if !env.has_document {
        LaunchError::NoDocument
    } else {
        LaunchError::NoBody
    }
}

/// Creates the canvas, appends it to the body and converts it to the
/// transferable offscreen surface. In every valid environment exactly one
/// canvas element is appended, sized to the fixed viewport; in an invalid
/// one the environment is untouched and the launch aborts with the fault
/// of the first absent object.
pub fn create_viewport_surface(env: &mut DomEnv) -> (r: Result<Surface, LaunchError>)
    ensures
        old(env).valid() ==> {
            &&& r matches Ok(s) && s.is_viewport_sized()
            &&& final(env).body_canvases@ == old(env).body_canvases@.push(
                CanvasElement { width: VIEWPORT_WIDTH, height: VIEWPORT_HEIGHT },
            )
            &&& final(env).has_window == old(env).has_window
            &&& final(env).has_document == old(env).has_document
            &&& final(env).has_body == old(env).has_body
        },
        !old(env).valid() ==> {
            &&& *final(env) == *old(env)
            &&& r == Err::<Surface, LaunchError>(expected_launch_error(*old(env)))
        },
{
    if !env.has_window {
        return Err(LaunchError::NoWindow);
    }
    if !env.has_document {
        return Err(LaunchError::NoDocument);
    }
    if !env.has_body {
        return Err(LaunchError::NoBody);
    }
    let canvas = CanvasElement { width: VIEWPORT_WIDTH, height: VIEWPORT_HEIGHT };
    env.body_canvases.push(canvas);
    Ok(Surface { width: VIEWPORT_WIDTH, height: VIEWPORT_HEIGHT })
}

} // verus!
