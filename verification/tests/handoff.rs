use offscreen_handoff::bootstrap::{
    BootError, EngineWorld, PlatformHandle, RegisterPrimaryWindow, WebElement, WindowEntity,
};
use offscreen_handoff::dom::{create_viewport_surface, CanvasElement, DomEnv, LaunchError};
use offscreen_handoff::launcher::{main_ctx_new, main_on_worker_message, try_use_surface};
use offscreen_handoff::message::{make_surface_message, Envelope, Payload};
use offscreen_handoff::protocol::{run_handoff, WireEvent};
use offscreen_handoff::scene::{setup_scene, FillColor, SceneObject, ShapeKind};
use offscreen_handoff::surface::{Surface, SurfaceDesc, VIEWPORT_HEIGHT, VIEWPORT_WIDTH};
use offscreen_handoff::worker::{worker_init, worker_on_message, WorkerError, WorkerPhase};

fn valid_env() -> DomEnv {
    DomEnv {
        has_window: true,
        has_document: true,
        has_body: true,
        body_canvases: Vec::new(),
    }
}

fn viewport_surface() -> Surface {
    Surface {
        width: VIEWPORT_WIDTH,
        height: VIEWPORT_HEIGHT,
    }
}

fn expected_scene_objects() -> Vec<SceneObject> {
    vec![
        SceneObject {
            shape: ShapeKind::Circle { radius: 50 },
            color: FillColor::Purple,
            x: -150,
            y: 0,
        },
        SceneObject {
            shape: ShapeKind::Rect {
                width: 50,
                height: 100,
            },
            color: FillColor::BlueViolet,
            x: -50,
            y: 0,
        },
        SceneObject {
            shape: ShapeKind::Quad {
                width: 50,
                height: 100,
            },
            color: FillColor::LimeGreen,
            x: 50,
            y: 0,
        },
        SceneObject {
            shape: ShapeKind::RegularPolygon {
                radius: 50,
                sides: 6,
            },
            color: FillColor::Turquoise,
            x: 150,
            y: 0,
        },
    ]
}

#[test]
fn canvas_appended_to_valid_dom() {
    let mut env = valid_env();
    let r = create_viewport_surface(&mut env);
    let surface = r.ok().expect("a valid environment must yield a surface");
    assert_eq!(surface.width, 1280);
    assert_eq!(surface.height, 720);
    assert_eq!(
        env.body_canvases,
        vec![CanvasElement {
            width: 1280,
            height: 720
        }]
    );
}

#[test]
fn launch_fails_without_window() {
    let mut env = valid_env();
    env.has_window = false;
    let r = create_viewport_surface(&mut env);
    assert!(matches!(r, Err(LaunchError::NoWindow)));
    assert!(env.body_canvases.is_empty());
}

#[test]
fn launch_fails_without_document() {
    let mut env = valid_env();
    env.has_document = false;
    let r = create_viewport_surface(&mut env);
    assert!(matches!(r, Err(LaunchError::NoDocument)));
    assert!(env.body_canvases.is_empty());
}

#[test]
fn launch_fails_without_body() {
    let mut env = valid_env();
    env.has_body = false;
    let r = create_viewport_surface(&mut env);
    assert!(matches!(r, Err(LaunchError::NoBody)));
    assert!(env.body_canvases.is_empty());
}

#[test]
fn worker_signals_readiness_with_empty_array() {
    let (ctx, signal) = worker_init();
    assert_eq!(ctx.phase, WorkerPhase::AwaitingSurface);
    assert!(matches!(signal.payload, Payload::EmptyArray));
    assert!(!signal.transfer_listed);
}

#[test]
fn surface_message_lists_surface_for_transfer() {
    let e = make_surface_message(viewport_surface());
    assert!(e.transfer_listed);
    match e.payload {
        Payload::Surface(s) => {
            assert_eq!(s.width, 1280);
            assert_eq!(s.height, 720);
        }
        _ => panic!("the payload must be the surface"),
    }
}

#[test]
fn surface_sent_only_after_readiness() {
    // The main context holds the surface and sends nothing until the
    // worker's signal arrives; the first signal triggers the one send.
    let mut main = main_ctx_new(viewport_surface());
    assert!(try_use_surface(&main).is_ok());
    let sent = main_on_worker_message(&mut main);
    match sent {
        Some(e) => assert!(matches!(e.payload, Payload::Surface(_))),
        None => panic!("the first readiness signal must trigger the send"),
    }
}

#[test]
fn second_signal_sends_nothing() {
    let mut main = main_ctx_new(viewport_surface());
    let first = main_on_worker_message(&mut main);
    assert!(first.is_some());
    let second = main_on_worker_message(&mut main);
    assert!(second.is_none());
}

#[test]
fn transfer_revokes_main_access() {
    let mut main = main_ctx_new(viewport_surface());
    let before = try_use_surface(&main);
    assert_eq!(
        before.ok(),
        Some(SurfaceDesc {
            width: 1280,
            height: 720
        })
    );
    let sent = main_on_worker_message(&mut main);
    assert!(sent.is_some());
    assert!(try_use_surface(&main).is_err());
}

#[test]
fn worker_aborts_on_non_surface_payload() {
    let (mut worker, _signal) = worker_init();
    let bogus = Envelope {
        payload: Payload::Other,
        transfer_listed: false,
    };
    let r = worker_on_message(&mut worker, bogus);
    assert!(matches!(r, Err(WorkerError::UnexpectedPayload)));
    assert_eq!(worker.phase, WorkerPhase::Aborted);
}

#[test]
fn worker_aborts_on_empty_array_payload() {
    let (mut worker, _signal) = worker_init();
    let bogus = Envelope {
        payload: Payload::EmptyArray,
        transfer_listed: false,
    };
    let r = worker_on_message(&mut worker, bogus);
    assert!(matches!(r, Err(WorkerError::UnexpectedPayload)));
    assert_eq!(worker.phase, WorkerPhase::Aborted);
}

#[test]
fn worker_renders_on_surface_payload() {
    let (mut worker, _signal) = worker_init();
    let msg = make_surface_message(viewport_surface());
    let run = worker_on_message(&mut worker, msg)
        .ok()
        .expect("a surface payload must be rendered");
    assert_eq!(worker.phase, WorkerPhase::Rendered);
    assert!(run.run_once);
    assert_eq!(run.scene.objects, expected_scene_objects());
}

#[test]
fn bootstrap_aborts_with_no_primary_window() {
    let mut world = EngineWorld {
        windows: vec![WindowEntity {
            primary: false,
            element: WebElement::Absent,
            handle: None,
        }],
    };
    let r = RegisterPrimaryWindow::default().build(&mut world);
    assert!(matches!(r, Err(BootError::NoPrimaryWindow)));
    assert_eq!(world.windows[0].handle, None);
}

#[test]
fn bootstrap_aborts_with_two_primary_windows() {
    let desc = SurfaceDesc {
        width: 1280,
        height: 720,
    };
    let primary = WindowEntity {
        primary: true,
        element: WebElement::OffscreenCanvas(desc),
        handle: None,
    };
    let mut world = EngineWorld {
        windows: vec![primary, primary],
    };
    let r = RegisterPrimaryWindow::default().build(&mut world);
    assert!(matches!(r, Err(BootError::MultiplePrimaryWindows)));
    assert_eq!(world.windows[0].handle, None);
    assert_eq!(world.windows[1].handle, None);
}

#[test]
fn bootstrap_aborts_on_unsupported_element() {
    let mut world = EngineWorld {
        windows: vec![WindowEntity {
            primary: true,
            element: WebElement::HtmlCanvas,
            handle: None,
        }],
    };
    let r = RegisterPrimaryWindow::default().build(&mut world);
    assert!(matches!(r, Err(BootError::UnsupportedElement)));
    assert_eq!(world.windows[0].handle, None);
}

#[test]
fn bootstrap_attaches_handle_to_unique_primary() {
    let desc = SurfaceDesc {
        width: 1280,
        height: 720,
    };
    let mut world = EngineWorld {
        windows: vec![
            WindowEntity {
                primary: false,
                element: WebElement::Absent,
                handle: None,
            },
            WindowEntity {
                primary: true,
                element: WebElement::OffscreenCanvas(desc),
                handle: None,
            },
        ],
    };
    let r = RegisterPrimaryWindow::default().build(&mut world);
    assert!(r.is_ok());
    assert_eq!(world.windows[0].handle, None);
    assert_eq!(
        world.windows[1].handle,
        Some(PlatformHandle::WebOffscreen(desc))
    );
}

#[test]
fn startup_scene_spawns_camera_and_four_shapes() {
    let scene = setup_scene();
    assert!(scene.camera);
    assert_eq!(scene.objects, expected_scene_objects());
}

#[test]
fn end_to_end_handoff_renders_fixed_scene() {
    let mut env = valid_env();
    let out = run_handoff(&mut env)
        .ok()
        .expect("a live page must complete the handoff");

    // Exactly one canvas was appended, sized to the viewport.
    assert_eq!(
        env.body_canvases,
        vec![CanvasElement {
            width: 1280,
            height: 720
        }]
    );

    // One readiness signal, then the one surface transfer, nothing more.
    assert_eq!(out.log, vec![WireEvent::WorkerReady, WireEvent::SurfaceSent]);

    // The main context lost access to the surface.
    assert!(try_use_surface(&out.main).is_err());

    // The worker ran one pass and is idle.
    assert_eq!(out.worker.phase, WorkerPhase::Rendered);
    assert!(out.frame.run_once);

    // The primary window carries the handle to the transferred surface.
    let desc = SurfaceDesc {
        width: 1280,
        height: 720,
    };
    assert_eq!(out.frame.world.windows.len(), 1);
    assert!(out.frame.world.windows[0].primary);
    assert_eq!(
        out.frame.world.windows[0].handle,
        Some(PlatformHandle::WebOffscreen(desc))
    );

    // The four static shapes were rendered.
    assert_eq!(out.frame.scene.objects, expected_scene_objects());
}

#[test]
fn handoff_aborts_on_dead_page() {
    let mut env = valid_env();
    env.has_window = false;
    let r = run_handoff(&mut env);
    assert!(matches!(r, Err(LaunchError::NoWindow)));
    assert!(env.body_canvases.is_empty());
}
