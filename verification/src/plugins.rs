//! The reduced plugin set the worker assembles for a single render pass.
//!
//! Only the subsystems needed for 2D sprite rendering are registered: asset
//! management, the 2D pipeline, input stubs, time, diagnostics, an
//! accessibility stub, and the window substitute in place of the engine's
//! native window management. The schedule runner is configured to execute
//! exactly one tick rather than an open-ended loop.

use vstd::prelude::*;
use crate::bootstrap::WebElement;

verus! {

/// One registered engine subsystem.
#[derive(Clone, Copy, PartialEq, Eq, Structural, Debug)]
pub enum PluginKind {
    Log,
    TaskPool,
    TypeRegistration,
    Time,
    FrameCount,
    Transform,
    Hierarchy,
    Diagnostics,
    Input,
    /// Window management, configured with the primary window's element.
    Window,
    Accessibility,
    /// The window-substitute fix-up step of this library.
    RegisterPrimaryWindow,
    Asset,
    Render,
    Image,
    CorePipeline,
    Sprite,
    /// The schedule runner, configured to run once.
    ScheduleRunner,
}

/// The plugin group built for the worker: the registration order and the
/// element the window plugin's primary window is configured with.
pub struct PluginSet {
    pub order: Vec<PluginKind>,
    /// The drawable element of the one primary window the window plugin
    /// spawns.
    pub primary_window_element: WebElement,
}

/// The registration order of the reduced plugin set.
pub open spec fn reduced_plugin_order() -> Seq<PluginKind> {
    seq![
        PluginKind::Log,
        PluginKind::TaskPool,
        PluginKind::TypeRegistration,
        PluginKind::Time,
        PluginKind::FrameCount,
        PluginKind::Transform,
        PluginKind::Hierarchy,
        PluginKind::Diagnostics,
        PluginKind::Input,
        PluginKind::Window,
        PluginKind::Accessibility,
        PluginKind::RegisterPrimaryWindow,
        PluginKind::Asset,
        PluginKind::Render,
        PluginKind::Image,
        PluginKind::CorePipeline,
        PluginKind::Sprite,
        PluginKind::ScheduleRunner,
    ]
}

impl PluginSet {
    /// True of the plugin group the worker is meant to assemble around the
    /// given element: the reduced set, in order, with the window plugin
    /// configured to spawn one primary window holding that element.
    pub open spec fn is_reduced_set(self, element: WebElement) -> bool {
        &&& self.order@ == reduced_plugin_order()
        &&& self.primary_window_element == element
    }
}

/// The worker-flavored counterpart of the engine's default plugin group:
/// the reduced set assembled around the primary window's element.
pub struct DefaultPlugins {
    /// The drawable element the primary window is configured with.
    pub primary_window: WebElement,
}

impl DefaultPlugins {
    /// Assembles the reduced plugin set, in registration order, with the
    /// window plugin configured to spawn one primary window holding the
    /// group's element.
    pub fn build(self) -> (p: PluginSet)
        ensures
            p.is_reduced_set(self.primary_window),
    {
        build_reduced_plugins(self.primary_window)
    }
}

/// Assembles the reduced plugin set around the given primary-window element.
fn build_reduced_plugins(element: WebElement) -> (p: PluginSet)
    ensures
        p.is_reduced_set(element),
{
    let mut order: Vec<PluginKind> = Vec::new();
    order.push(PluginKind::Log);
    order.push(PluginKind::TaskPool);
    order.push(PluginKind::TypeRegistration);
    order.push(PluginKind::Time);
    order.push(PluginKind::FrameCount);
    order.push(PluginKind::Transform);
    order.push(PluginKind::Hierarchy);
    order.push(PluginKind::Diagnostics);
    order.push(PluginKind::Input);
    order.push(PluginKind::Window);
    order.push(PluginKind::Accessibility);
    order.push(PluginKind::RegisterPrimaryWindow);
    order.push(PluginKind::Asset);
    order.push(PluginKind::Render);
    order.push(PluginKind::Image);
    order.push(PluginKind::CorePipeline);
    order.push(PluginKind::Sprite);
    order.push(PluginKind::ScheduleRunner);
    let set = PluginSet { order, primary_window_element: element };
    proof {
        assert(set.order@ =~= reduced_plugin_order());
    }
    set
}

} // verus!
