use puppet_viewport::camera::{Camera, Scale, ScreenPoint, Viewport, WorldVector};
use puppet_viewport::controller::{InputEvent, Key, PointerButton, ScaleRange, ViewportController};
use puppet_viewport::orchestrator::{
    derive_frame_params, Action, FrameOrchestrator, LoopState, Occurrence, WindowEvent,
};
use puppet_viewport::surface::{
    select_alpha_mode, AlphaMode, FrameError, PixelFormat, PresentMode, SurfaceConfig,
};

fn config(width: u32, height: u32) -> SurfaceConfig {
    SurfaceConfig {
        width,
        height,
        format: PixelFormat::Bgra8Unorm,
        present_mode: PresentMode::Fifo,
        alpha_mode: AlphaMode::PreMultiplied,
    }
}

fn orchestrator(width: u32, height: u32) -> FrameOrchestrator {
    let camera =
        Camera::new(WorldVector { x: 0, y: 0 }, Scale { x: 150_000, y: 150_000 }, 0).unwrap();
    let controller = ViewportController::new(500_000, ScaleRange::new(10_000, 10_000_000).unwrap());
    FrameOrchestrator::new(config(width, height), camera, controller)
}

fn window(event: WindowEvent) -> Occurrence {
    Occurrence::Window(event)
}

fn input(event: InputEvent) -> Occurrence {
    Occurrence::Window(WindowEvent::Input(event))
}

fn resized(width: u32, height: u32) -> Occurrence {
    Occurrence::Window(WindowEvent::Resized { width, height })
}

fn redraw(now: u64) -> Occurrence {
    Occurrence::RedrawRequested { now }
}

fn renders(actions: &[Action]) -> usize {
    actions.iter().filter(|a| matches!(a, Action::Render { .. })).count()
}

fn frame_of(o: &FrameOrchestrator, width: u32, height: u32) -> Vec<Action> {
    vec![
        Action::BeginParamEdit,
        Action::EndParamEdit,
        Action::AcquireFrame,
        Action::Render { viewport: Viewport { width, height }, camera: o.camera },
        Action::Present,
    ]
}

#[test]
fn new_orchestrator_is_running() {
    let o = orchestrator(1280, 720);
    assert_eq!(o.state, LoopState::Running);
    assert!(!o.is_exit_requested());
    assert!(o.surface_live);
    assert_eq!(o.config, config(1280, 720));
    assert!(!orchestrator(0, 720).surface_live);
    assert!(!orchestrator(1280, 0).surface_live);
    assert!(o.is_well_formed());
    assert!(orchestrator(0, 0).is_well_formed());
    assert!(!FrameOrchestrator { config: config(0, 5), ..o }.is_well_formed());
    assert!(FrameOrchestrator { config: config(0, 5), surface_live: false, ..o }.is_well_formed());
}

#[test]
fn close_requests_the_exit() {
    let mut o = orchestrator(1280, 720);
    let before = o;
    assert_eq!(o.step(&window(WindowEvent::CloseRequested)), vec![]);
    assert!(o.is_exit_requested());
    assert_eq!(o, FrameOrchestrator { state: LoopState::ExitRequested, ..before });
}

#[test]
fn escape_press_requests_the_exit() {
    let mut o = orchestrator(1280, 720);
    assert_eq!(o.step(&input(InputEvent::KeyDown { key: Key::Escape })), vec![]);
    assert!(o.is_exit_requested());
}

#[test]
fn other_keys_and_escape_release_do_not_exit() {
    let mut o = orchestrator(1280, 720);
    let before = o;
    for event in [
        InputEvent::KeyUp { key: Key::Escape },
        InputEvent::KeyDown { key: Key::Other(13) },
        InputEvent::KeyUp { key: Key::Other(13) },
    ] {
        assert_eq!(o.step(&input(event)), vec![]);
        assert_eq!(o, before);
    }
}

#[test]
fn terminal_state_runs_no_pipeline() {
    for request in [window(WindowEvent::CloseRequested), input(InputEvent::KeyDown { key: Key::Escape })] {
        let mut o = orchestrator(1280, 720);
        o.step(&request);
        let exited = o;
        let later = [
            redraw(10),
            Occurrence::AllEventsDrained,
            resized(640, 480),
            resized(0, 0),
            input(InputEvent::Scroll { delta: 3 }),
            input(InputEvent::PointerDown { pos: ScreenPoint { x: 1, y: 1 }, button: PointerButton::Primary }),
            input(InputEvent::PointerMoved { pos: ScreenPoint { x: 9, y: 9 } }),
            window(WindowEvent::CloseRequested),
            redraw(20),
        ];
        for occurrence in later {
            assert_eq!(o.step(&occurrence), vec![]);
            assert_eq!(o, exited);
        }
        assert_eq!(o.frame_failed(FrameError::Lost), vec![]);
        assert_eq!(o.frame_failed(FrameError::DeviceLost), vec![]);
        assert_eq!(o, exited);
    }
}

#[test]
fn resize_configures_before_the_next_frame() {
    let mut o = orchestrator(1280, 720);
    let actions = o.step(&resized(800, 600));
    assert_eq!(
        actions,
        vec![
            Action::ConfigureSurface(config(800, 600)),
            Action::ResizeRenderer(Viewport { width: 800, height: 600 }),
            Action::RequestRedraw,
        ]
    );
    assert_eq!(o.config, config(800, 600));
    assert_eq!(o.state, LoopState::Running);
    let frame = o.step(&redraw(1));
    assert_eq!(frame, frame_of(&o, 800, 600));
}

#[test]
fn frame_uses_the_latest_of_several_sizes() {
    let mut o = orchestrator(1280, 720);
    o.step(&redraw(0));
    o.step(&resized(800, 600));
    o.step(&resized(1024, 768));
    o.step(&input(InputEvent::Scroll { delta: 1 }));
    o.step(&Occurrence::AllEventsDrained);
    let frame = o.step(&redraw(16_000));
    assert_eq!(frame, frame_of(&o, 1024, 768));
    assert_eq!(renders(&frame), 1);
}

#[test]
fn minimised_window_draws_nothing() {
    let mut o = orchestrator(1280, 720);
    assert_eq!(o.step(&resized(0, 0)), vec![]);
    assert_eq!(o.config, config(1280, 720));
    assert!(!o.surface_live);
    let frame = o.step(&redraw(5));
    assert_eq!(renders(&frame), 0);
    assert_eq!(frame, vec![Action::BeginParamEdit, Action::EndParamEdit]);
    assert_eq!(o.state, LoopState::Running);
}

#[test]
fn one_zero_dimension_is_enough_to_suspend() {
    for (w, h) in [(0u32, 600u32), (800, 0)] {
        let mut o = orchestrator(1280, 720);
        assert_eq!(o.step(&resized(w, h)), vec![]);
        assert_eq!(o.step(&Occurrence::AllEventsDrained), vec![Action::RequestRedraw]);
        let frame = o.step(&redraw(5));
        assert_eq!(frame, vec![Action::BeginParamEdit, Action::EndParamEdit]);
        assert_eq!(o.frame_failed(FrameError::Outdated), vec![]);
    }
}

#[test]
fn drawing_resumes_when_the_window_has_a_size_again() {
    let mut o = orchestrator(1280, 720);
    o.step(&resized(0, 0));
    o.step(&redraw(5));
    let actions = o.step(&resized(640, 480));
    assert_eq!(
        actions,
        vec![
            Action::ConfigureSurface(config(640, 480)),
            Action::ResizeRenderer(Viewport { width: 640, height: 480 }),
            Action::RequestRedraw,
        ]
    );
    assert_eq!(o.step(&redraw(6)), frame_of(&o, 640, 480));
}

#[test]
fn frame_pipeline_runs_in_order_and_advances_the_clock() {
    let mut o = orchestrator(1280, 720);
    let first = o.step(&redraw(1_000_000));
    assert_eq!(first, frame_of(&o, 1280, 720));
    assert_eq!(o.controller.current_elapsed(), 0);
    let second = o.step(&redraw(1_016_667));
    assert_eq!(second, frame_of(&o, 1280, 720));
    assert_eq!(o.controller.current_elapsed(), 16_667);
    let direct = o.frame(1_033_334);
    assert_eq!(direct, frame_of(&o, 1280, 720));
    assert_eq!(o.controller.current_elapsed(), 33_334);
}

#[test]
fn no_parameter_is_driven_yet() {
    let o = orchestrator(1280, 720);
    assert_eq!(derive_frame_params(0, &o.camera), vec![]);
    assert_eq!(derive_frame_params(u64::MAX, &o.camera), vec![]);
}

#[test]
fn drained_events_ask_for_the_next_redraw() {
    let mut o = orchestrator(1280, 720);
    let before = o;
    assert_eq!(o.step(&Occurrence::AllEventsDrained), vec![Action::RequestRedraw]);
    assert_eq!(o, before);
}

#[test]
fn input_reaches_the_controller_and_the_camera() {
    let mut o = orchestrator(1280, 720);
    let press = InputEvent::PointerDown { pos: ScreenPoint { x: 100, y: 100 }, button: PointerButton::Primary };
    assert_eq!(o.step(&input(press)), vec![]);
    assert!(o.controller.drag_anchor.is_some());
    assert_eq!(o.step(&input(InputEvent::PointerMoved { pos: ScreenPoint { x: 150, y: 120 } })), vec![]);
    assert_eq!(o.camera.position, WorldVector { x: -333_333_333, y: -133_333_333 });
    assert_eq!(o.step(&input(InputEvent::Scroll { delta: 1 })), vec![]);
    assert_eq!(o.camera.scale, Scale { x: 225_000, y: 225_000 });
    let frame = o.step(&redraw(0));
    assert_eq!(frame, frame_of(&o, 1280, 720));
    assert_eq!(
        frame[3],
        Action::Render {
            viewport: Viewport { width: 1280, height: 720 },
            camera: Camera {
                position: WorldVector { x: -333_333_333, y: -133_333_333 },
                scale: Scale { x: 225_000, y: 225_000 },
                rotation: 0,
            },
        }
    );
}

#[test]
fn recoverable_frame_errors_reconfigure_and_go_on() {
    for error in [FrameError::Lost, FrameError::Outdated, FrameError::Timeout] {
        let mut o = orchestrator(1280, 720);
        o.step(&redraw(0));
        let before = o;
        assert_eq!(o.frame_failed(error), vec![Action::ConfigureSurface(config(1280, 720))]);
        assert_eq!(o, before);
        assert_eq!(o.step(&redraw(1)), frame_of(&o, 1280, 720));
    }
}

#[test]
fn device_loss_ends_the_loop() {
    let mut o = orchestrator(1280, 720);
    o.step(&redraw(0));
    assert_eq!(o.frame_failed(FrameError::DeviceLost), vec![Action::ReportFatal(FrameError::DeviceLost)]);
    assert!(o.is_exit_requested());
    assert_eq!(o.step(&redraw(1)), vec![]);
}

#[test]
fn only_device_loss_is_fatal() {
    assert!(FrameError::DeviceLost.is_fatal());
    assert!(!FrameError::Lost.is_fatal());
    assert!(!FrameError::Outdated.is_fatal());
    assert!(!FrameError::Timeout.is_fatal());
}

#[test]
fn resize_method_matches_the_resized_occurrence() {
    let mut a = orchestrator(1280, 720);
    let mut b = orchestrator(1280, 720);
    assert_eq!(a.resize(300, 200), b.step(&resized(300, 200)));
    assert_eq!(a, b);
    assert_eq!(a.resize(0, 200), b.step(&resized(0, 200)));
    assert_eq!(a, b);
}

#[test]
fn viewport_degeneracy() {
    assert!(Viewport { width: 0, height: 0 }.is_degenerate());
    assert!(Viewport { width: 0, height: 1 }.is_degenerate());
    assert!(Viewport { width: 1, height: 0 }.is_degenerate());
    assert!(!Viewport { width: 1, height: 1 }.is_degenerate());
    assert_eq!(config(3, 4).viewport(), Viewport { width: 3, height: 4 });
}

#[test]
fn alpha_mode_prefers_premultiplied() {
    assert_eq!(
        select_alpha_mode(&vec![AlphaMode::Opaque, AlphaMode::PreMultiplied, AlphaMode::Auto]),
        AlphaMode::PreMultiplied
    );
    assert_eq!(select_alpha_mode(&vec![AlphaMode::PreMultiplied]), AlphaMode::PreMultiplied);
}

#[test]
fn alpha_mode_falls_back_to_the_first() {
    assert_eq!(select_alpha_mode(&vec![AlphaMode::Opaque, AlphaMode::Auto]), AlphaMode::Opaque);
    assert_eq!(
        select_alpha_mode(&vec![AlphaMode::Inherit, AlphaMode::PostMultiplied, AlphaMode::Opaque]),
        AlphaMode::Inherit
    );
}
