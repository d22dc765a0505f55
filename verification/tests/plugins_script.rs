use offscreen_handoff::bootstrap::WebElement;
use offscreen_handoff::plugins::{DefaultPlugins, PluginKind};
use offscreen_handoff::script::{worker_artifact_name, worker_script};
use offscreen_handoff::surface::SurfaceDesc;

#[test]
fn reduced_plugin_set_in_registration_order() {
    let desc = SurfaceDesc {
        width: 1280,
        height: 720,
    };
    let element = WebElement::OffscreenCanvas(desc);
    let set = DefaultPlugins {
        primary_window: element,
    }
    .build();
    assert_eq!(set.primary_window_element, element);
    assert_eq!(
        set.order,
        vec![
            PluginKind::Log,
            PluginKind::TaskPool,
            PluginKind::TypeRegistration,
            PluginKind::Time,
            PluginKind::FrameCount,
            PluginKind::Transform,
            PluginKind::Hierarchy,
            PluginKind::Diagnostics,
            PluginKind::Input,
            PluginKind::Window,
            PluginKind::Accessibility,
            PluginKind::RegisterPrimaryWindow,
            PluginKind::Asset,
            PluginKind::Render,
            PluginKind::Image,
            PluginKind::CorePipeline,
            PluginKind::Sprite,
            PluginKind::ScheduleRunner,
        ]
    );
}

#[test]
fn worker_script_follows_naming_convention() {
    let script = worker_script("https://example.org", "bevy_worker");
    assert_eq!(
        script,
        "importScripts(\"https://example.org/bevy_worker.js\");\
         wasm_bindgen(\"https://example.org/bevy_worker_bg.wasm\");"
    );
}

#[test]
fn worker_artifact_has_fixed_name() {
    assert_eq!(worker_artifact_name(), "bevy_worker");
}
