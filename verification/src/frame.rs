//! The single-pass frame runner.
//!
//! Given ownership of the transferred surface, the worker assembles the
//! reduced plugin set around it, lets the window plugin spawn the one
//! primary window configured with the surface, runs the window-substitute
//! fix-up, registers the static scene, and executes exactly one scheduling
//! tick. Because the plugin set itself spawns the single primary window,
//! the fix-up step is proved to succeed here.

use vstd::prelude::*;
use crate::bootstrap::EngineWorld;
use crate::bootstrap::PlatformHandle;
use crate::bootstrap::RegisterPrimaryWindow;
use crate::bootstrap::WebElement;
use crate::bootstrap::WindowEntity;
use crate::plugins::DefaultPlugins;
use crate::plugins::PluginSet;
use crate::scene::Scene;
use crate::scene::setup_scene;
use crate::surface::Surface;
use crate::surface::SurfaceDesc;

verus! {

/// Everything one completed render pass leaves behind.
pub struct FrameRun {
    /// The plugin group the engine instance was built from.
    pub plugins: PluginSet,
    /// Whether the schedule runner was configured to run exactly once.
    pub run_once: bool,
    /// The engine world after the window substitute ran.
    pub world: EngineWorld,
    /// The scene the startup system registered.
    pub scene: Scene,
}

impl FrameRun {
    /// True of a completed pass over a surface of the given description:
    /// one tick, the reduced plugin set around the surface, the primary
    /// window registered with its handle, and the fixed scene in place.
    pub open spec fn is_single_pass_over(self, d: SurfaceDesc) -> bool {
        &&& self.run_once
        &&& self.plugins.is_reduced_set(WebElement::OffscreenCanvas(d))
        &&& self.world.windows@ == seq![
            WindowEntity {
                primary: true,
                element: WebElement::OffscreenCanvas(d),
                handle: Some(PlatformHandle::WebOffscreen(d)),
            },
        ]
        &&& self.world.primary_window_registered()
        &&& self.scene.is_fixed_scene()
    }
}

/// Builds an engine instance around the transferred surface and runs one
/// scheduling tick: the reduced plugin set, the window substitute, and the
/// startup scene.
pub fn single_pass(surface: Surface) -> (r: FrameRun)
    ensures
        r.is_single_pass_over(surface.spec_descriptor()),
{
    let desc = surface.descriptor();
    let element = WebElement::OffscreenCanvas(desc);
    let plugins = (DefaultPlugins { primary_window: element }).build();
    // The window plugin spawns the single primary window, configured with
    // the surface the plugin group was built around.
    let mut world = EngineWorld { windows: Vec::new() };
    world.windows.push(WindowEntity { primary: true, element, handle: None });
    proof {
        assert(crate::bootstrap::primaries_among(world.windows@, 0) == 0);
        assert(crate::bootstrap::primary_count(world.windows@) == 1);
    }
    let substitute = RegisterPrimaryWindow;
    let registered = substitute.build(&mut world);
    match registered {
        Ok(()) => {},
        Err(_) => {
            proof {
                assert(false);
            }
        },
    }
    let scene = setup_scene();
    proof {
        assert(world.windows@ =~= seq![
            WindowEntity {
                primary: true,
                element: WebElement::OffscreenCanvas(desc),
                handle: Some(PlatformHandle::WebOffscreen(desc)),
            },
        ]);
    }
    FrameRun { plugins, run_once: true, world, scene }
}

} // verus!
