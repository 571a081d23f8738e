use rustquest::app::{
    vrapi_DefaultModeParms, App, InputDevice, ModeAction, ModeParms,
    SessionError, Step, Teardown, CONTROLLER_CAPS_RIGHT_HAND, CONTROLLER_TYPE_TRACKED_REMOTE,
    MODE_FLAG_ALLOW_POWER_SAVE, MODE_FLAG_NATIVE_WINDOW, MODE_FLAG_RESET_WINDOW_FULLSCREEN,
};
use rustquest::events::Message;
use rustquest::egl::{context_attribs, pbuffer_attribs, ConfigAttribs, EGL, OPENGL_ES3_BIT, PBUFFER_BIT, WINDOW_BIT};
use rustquest::geometry::{attrib_layouts, cube_indices, Geometry};
use rustquest::program::{attrib_names, Program};
use rustquest::swap_chain::{SwapChain, FRAMEBUFFER_COMPLETE};

const DISPLAY: u64 = 0x1000;
const CONTEXT: u64 = 0x2000;
const SURFACE: u64 = 0x3000;

fn swap_chain(handle: u64, first: u32, n: usize) -> SwapChain {
    let depth: Vec<u32> = (0..n as u32).map(|i| first + 100 + i).collect();
    let frame: Vec<u32> = (0..n as u32).map(|i| first + i).collect();
    let statuses = vec![FRAMEBUFFER_COMPLETE; n];
    SwapChain::new(1024, 1024, handle, depth, frame, &statuses).unwrap()
}

fn session() -> App {
    let config = ConfigAttribs {
        renderable_type: OPENGL_ES3_BIT,
        surface_type: WINDOW_BIT | PBUFFER_BIT,
        red_size: 8,
        green_size: 8,
        blue_size: 8,
        alpha_size: 8,
        depth_size: 0,
        stencil_size: 0,
        samples: 0,
    };
    let egl = EGL::new(DISPLAY, CONTEXT, SURFACE, &vec![config], 0, &context_attribs(), &pbuffer_attribs())
        .unwrap();
    let left = swap_chain(0x10, 1, 3);
    let right = swap_chain(0x20, 11, 3);
    let program = Program::new(40, 41, 42, &attrib_names(), vec![0, 1, 2]).unwrap();
    let geometry = Geometry::new(50, 51, 52, 192, &cube_indices(), &attrib_layouts()).unwrap();
    App::new(egl, left, right, program, geometry)
}

fn window_parms(window: u64) -> ModeParms {
    ModeParms::for_window(DISPLAY, window, CONTEXT)
}

/// Applies a command and performs the mode action it asks for, counting the
/// compositor calls.
fn apply_settled(app: &mut App, message: Message, handle: u64, calls: &mut Vec<ModeAction>) {
    match app.apply(message) {
        Step::Continue(ModeAction::Stay) => {}
        Step::Continue(ModeAction::Enter(p)) => {
            calls.push(ModeAction::Enter(p));
            app.vr_mode_entered(handle).unwrap();
        }
        Step::Continue(ModeAction::Leave(h)) => calls.push(ModeAction::Leave(h)),
        Step::Exit => {}
    }
}

#[test]
fn e2e_session_lifecycle() {
    let mut app = session();
    let mut calls = Vec::new();

    apply_settled(&mut app, Message::Resume, 0x77, &mut calls);
    assert!(!app.is_in_vr());
    assert!(calls.is_empty());
    assert_eq!(app.render_frame(), None);
    assert_eq!(app.frame_index(), 0);

    let action = app.apply(Message::SurfaceCreated(0x500));
    let parms = match action {
        Step::Continue(ModeAction::Enter(p)) => p,
        other => panic!("expected to enter VR mode, got {:?}", other),
    };
    assert_eq!(parms.flags & MODE_FLAG_NATIVE_WINDOW, MODE_FLAG_NATIVE_WINDOW);
    assert_eq!(parms.window_surface, 0x500);
    assert_eq!(parms.display, DISPLAY);
    assert_eq!(parms.share_context, CONTEXT);
    assert_eq!(app.vr_mode_entered(0x77), Ok(()));
    assert_eq!(app.vr(), Some(0x77));

    let plan = app.render_frame().unwrap();
    assert_eq!(plan.frame_index, 1);
    assert_eq!(plan.vr, 0x77);

    assert_eq!(app.apply(Message::Pause), Step::Continue(ModeAction::Leave(0x77)));
    assert_eq!(app.vr(), None);
    assert_eq!(app.render_frame(), None);

    assert_eq!(app.apply(Message::Destroy), Step::Exit);
    let steps = app.teardown();
    assert!(!steps.iter().any(|s| matches!(s, Teardown::LeaveVrMode(_))));
    assert_eq!(steps.last(), Some(&Teardown::ShutdownVrApi));
    assert_eq!(steps[0], Teardown::DeleteVertexArray(50));
}

#[test]
fn mode_invariant_holds_after_every_event() {
    let mut app = session();
    let mut calls = Vec::new();
    let events = [
        Message::SurfaceCreated(0x500),
        Message::Resume,
        Message::SurfaceDestroyed,
        Message::SurfaceCreated(0x600),
        Message::Pause,
        Message::Pause,
        Message::Resume,
        Message::Start,
        Message::SurfaceCreated(0),
        Message::Stop,
        Message::Resume,
    ];
    for (i, e) in events.iter().enumerate() {
        apply_settled(&mut app, *e, 0x100 + i as u64, &mut calls);
        assert_eq!(app.is_in_vr(), app.resumed() && app.window().is_some(), "after {:?}", e);
    }
    assert_eq!(calls.len(), 6);
}

#[test]
fn mode_transition_is_idempotent() {
    let mut app = session();
    app.apply(Message::SurfaceCreated(0x500));
    assert_eq!(app.set_resumed(true), ModeAction::Enter(window_parms(0x500)));
    app.vr_mode_entered(0x42).unwrap();
    assert_eq!(app.update_vr_mode(), ModeAction::Stay);
    assert_eq!(app.update_vr_mode(), ModeAction::Stay);

    assert_eq!(app.set_window(0), ModeAction::Leave(0x42));
    assert_eq!(app.update_vr_mode(), ModeAction::Stay);
    assert_eq!(app.vr(), None);
}

#[test]
fn entering_vr_mode_reports_failures() {
    let mut app = session();
    assert_eq!(app.vr_mode_entered(0x42), Err(SessionError::NotEntering));
    app.set_resumed(true);
    app.set_window(0x500);
    assert_eq!(app.vr(), None);
    assert_eq!(app.vr_mode_entered(0x42), Ok(()));
    assert_eq!(app.vr_mode_entered(0x43), Err(SessionError::NotEntering));
    assert_eq!(app.vr(), Some(0x42));
}

#[test]
fn window_mode_flags_are_exact() {
    let defaults = vrapi_DefaultModeParms();
    assert_eq!(defaults.flags, MODE_FLAG_ALLOW_POWER_SAVE | MODE_FLAG_RESET_WINDOW_FULLSCREEN);
    assert_eq!(defaults.flags, 0x0000_FFFF);
    let parms = window_parms(0x500);
    assert_eq!(parms.flags, 0x0001_00FF);
    assert_eq!(parms.flags & MODE_FLAG_RESET_WINDOW_FULLSCREEN, 0);
}

#[test]
fn frames_cycle_both_eyes() {
    let mut app = session();
    app.set_resumed(true);
    app.set_window(0x500);
    app.vr_mode_entered(0x77).unwrap();
    let mut seen = Vec::new();
    for k in 1..=4u64 {
        let plan = app.render_frame().unwrap();
        assert_eq!(plan.frame_index, k);
        assert_eq!(plan.swap_interval, 1);
        assert_eq!(plan.eyes.len(), 2);
        assert_eq!(plan.eyes[0].color_swap_chain, 0x10);
        assert_eq!(plan.eyes[1].color_swap_chain, 0x20);
        assert_eq!(plan.eyes[0].viewport.width, 1024);
        seen.push((plan.eyes[0].frame_buffer, plan.eyes[1].swap_chain_index));
    }
    assert_eq!(seen, vec![(1, 0), (2, 1), (3, 2), (1, 0)]);
}

#[test]
fn teardown_runs_in_reverse_order() {
    let mut app = session();
    app.set_resumed(true);
    app.set_window(0x500);
    app.vr_mode_entered(0x77).unwrap();
    let steps = app.teardown();
    let expected = vec![
        Teardown::LeaveVrMode(0x77),
        Teardown::DeleteVertexArray(50),
        Teardown::DeleteIndexBuffer(52),
        Teardown::DeleteVertexBuffer(51),
        Teardown::DeleteProgram(40),
        Teardown::DeleteShader(42),
        Teardown::DeleteShader(41),
        Teardown::DeleteFramebuffers(vec![11, 12, 13]),
        Teardown::DeleteRenderbuffers(vec![111, 112, 113]),
        Teardown::DestroySwapChain(0x20),
        Teardown::DeleteFramebuffers(vec![1, 2, 3]),
        Teardown::DeleteRenderbuffers(vec![101, 102, 103]),
        Teardown::DestroySwapChain(0x10),
        Teardown::ReleaseCurrent(DISPLAY),
        Teardown::DestroySurface { display: DISPLAY, surface: SURFACE },
        Teardown::DestroyContext { display: DISPLAY, context: CONTEXT },
        Teardown::Terminate(DISPLAY),
        Teardown::ShutdownVrApi,
    ];
    assert_eq!(steps, expected);
}

fn device(device_type: u32, device_id: u32, capabilities: u32) -> InputDevice {
    InputDevice { device_type, device_id, capabilities }
}

#[test]
fn right_controller_is_selected() {
    let devices = vec![
        device(CONTROLLER_TYPE_TRACKED_REMOTE, 1, 0x4),
        device(0x20, 2, CONTROLLER_CAPS_RIGHT_HAND),
        device(CONTROLLER_TYPE_TRACKED_REMOTE, 3, 0x3 | CONTROLLER_CAPS_RIGHT_HAND),
        device(CONTROLLER_TYPE_TRACKED_REMOTE, 4, 0x1),
    ];
    assert_eq!(App::handle_input(&devices), Some(2));
    assert_eq!(App::handle_input(&devices[..2].to_vec()), None);
    assert_eq!(App::handle_input(&Vec::new()), None);
    let two = vec![
        device(CONTROLLER_TYPE_TRACKED_REMOTE, 7, CONTROLLER_CAPS_RIGHT_HAND),
        device(CONTROLLER_TYPE_TRACKED_REMOTE, 8, CONTROLLER_CAPS_RIGHT_HAND),
    ];
    assert_eq!(App::handle_input(&two), Some(1));
}

#[test]
fn start_and_stop_change_nothing() {
    let mut app = session();
    assert_eq!(app.apply(Message::Start), Step::Continue(ModeAction::Stay));
    assert_eq!(app.apply(Message::Stop), Step::Continue(ModeAction::Stay));
    assert!(!app.resumed());
    assert_eq!(app.window(), None);
}
