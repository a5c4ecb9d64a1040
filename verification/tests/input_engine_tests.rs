//! The input cache and the engine's event handling.

use rendercore::engine::{
    AcquireFailure, AcquireResponse, Engine, EngineAction, EngineParams, EngineState, WindowParams,
    B_DT, KEY_ESCAPE, KEY_RCONTROL, KEY_S, KEY_W,
};
use rendercore::input::{
    DeviceInputEvent, ElementState, Input, InputEvent, MouseButton, WindowInputEvent,
};
use rendercore::scene::{Scene, SceneObject};
use rendercore::mesh::{Mesh, Vertex};
use rendercore::vec3::Vec3b;

fn key_down(code: u8) -> InputEvent {
    InputEvent::Window(WindowInputEvent::KeyboardInput {
        state: ElementState::Pressed,
        key_code: Some(code),
    })
}

fn key_up(code: u8) -> InputEvent {
    InputEvent::Window(WindowInputEvent::KeyboardInput {
        state: ElementState::Released,
        key_code: Some(code),
    })
}

fn new_engine() -> Engine {
    Engine::new(&EngineParams { window: WindowParams { size: (1280, 720) } })
}

#[test]
fn input_tracks_presses_releases_and_held_state() {
    let mut input = Input::new();
    assert!(!input.key_held(7));

    input.update(&key_down(7));
    assert!(input.key_held(7));
    assert!(input.key_pressed(7));
    assert!(!input.key_released(7));

    // A new step clears the transitions but not the held state.
    input.update(&InputEvent::NewEvents);
    assert!(input.key_held(7));
    assert!(!input.key_pressed(7));

    input.update(&key_up(7));
    assert!(!input.key_held(7));
    assert!(input.key_released(7));
}

#[test]
fn input_tracks_mouse_buttons_and_motion() {
    let mut input = Input::new();
    input.update(&InputEvent::Window(WindowInputEvent::MouseInput {
        state: ElementState::Pressed,
        button: MouseButton::Left,
    }));
    assert!(input.mouse_held(MouseButton::Left));
    assert!(input.mouse_pressed(MouseButton::Left));
    assert!(!input.mouse_held(MouseButton::Right));

    assert_eq!(input.mouse_diff(), (0, 0));
    input.update(&InputEvent::Device(DeviceInputEvent::MouseMotion {
        dx: 3.5f32.to_bits(),
        dy: (-2.0f32).to_bits(),
    }));
    let d = input.mouse_diff();
    assert_eq!(f32::from_bits(d.0), 3.5);
    assert_eq!(f32::from_bits(d.1), -2.0);

    input.update(&InputEvent::NewEvents);
    assert_eq!(input.mouse_diff(), (0, 0));

    input.update(&InputEvent::Window(WindowInputEvent::MouseInput {
        state: ElementState::Released,
        button: MouseButton::Left,
    }));
    assert!(!input.mouse_held(MouseButton::Left));
    assert!(input.mouse_released(MouseButton::Left));
}

#[test]
fn input_whole_button_range_is_tracked() {
    let mut input = Input::new();
    input.update(&InputEvent::Window(WindowInputEvent::MouseInput {
        state: ElementState::Pressed,
        button: MouseButton::Other(255),
    }));
    assert!(input.mouse_held(MouseButton::Other(255)));
}

#[test]
fn cursor_diff_subtracts_consecutive_positions() {
    let mut input = Input::new();
    input.update(&InputEvent::Window(WindowInputEvent::CursorMoved {
        x: 100.0f32.to_bits(),
        y: 50.0f32.to_bits(),
    }));
    // No previous position yet.
    assert_eq!(input.cursor_diff(), (0, 0));

    input.update(&InputEvent::NewEvents);
    input.update(&InputEvent::Window(WindowInputEvent::CursorMoved {
        x: 130.0f32.to_bits(),
        y: 45.5f32.to_bits(),
    }));
    let d = input.cursor_diff();
    assert_eq!(f32::from_bits(d.0), 30.0);
    assert_eq!(f32::from_bits(d.1), -4.5);

    let c = input.cursor().unwrap();
    assert_eq!(f32::from_bits(c.0), 130.0);
}

#[test]
fn update_signals_a_completed_step() {
    let mut input = Input::new();
    assert!(!input.update(&InputEvent::NewEvents));
    assert!(!input.update(&key_down(1)));
    assert!(input.update(&InputEvent::MainEventsCleared));
}

#[test]
fn engine_reacts_to_window_events() {
    let mut e = new_engine();
    assert_eq!(e.surface_width, 1280);
    assert_eq!(e.surface_height, 720);
    assert_eq!(e.state, EngineState { cursor_grabbed: false });

    let a = e.handle_event(&InputEvent::Window(WindowInputEvent::Resized {
        width: 640,
        height: 480,
    }));
    assert_eq!(a, EngineAction::Idle);
    assert_eq!(e.surface_width, 640);
    assert_eq!(e.renderer.demo_pass.width, 640);

    let a = e.handle_event(&InputEvent::Window(WindowInputEvent::MouseInput {
        state: ElementState::Pressed,
        button: MouseButton::Left,
    }));
    assert_eq!(a, EngineAction::GrabCursor);
    assert!(e.state.cursor_grabbed);

    let a = e.handle_event(&key_down(KEY_RCONTROL));
    assert_eq!(a, EngineAction::ReleaseCursor);
    assert!(!e.state.cursor_grabbed);

    let a = e.handle_event(&key_down(KEY_ESCAPE));
    assert_eq!(a, EngineAction::Exit);

    let a = e.handle_event(&InputEvent::Window(WindowInputEvent::CloseRequested));
    assert_eq!(a, EngineAction::Exit);

    let a = e.handle_event(&InputEvent::MainEventsCleared);
    assert_eq!(a, EngineAction::RequestRedraw);
}

#[test]
fn redraw_advances_the_camera_from_held_keys() {
    let mut e = new_engine();
    e.handle_event(&key_down(KEY_W));
    let a = e.handle_event(&InputEvent::RedrawRequested);
    assert_eq!(a, EngineAction::Render);

    // Independently: one forward impulse then one damped integration
    // step, starting from rest with identity orientation.
    let dt = f32::from_bits(B_DT);
    let pushed = glam::Vec3::new(0.0, 0.0, 50.0 * dt).clamp_length(0.0, 5.0);
    let vel = pushed * (1e-4f32).powf(dt);
    let pos = pushed * dt;
    assert_eq!(f32::from_bits(e.camera.velocity.z), vel.z);
    assert_eq!(f32::from_bits(e.camera.position.z), pos.z);
    assert_eq!(e.camera.velocity.x, 0);
    assert_eq!(e.camera.velocity.y, 0);

    // Releasing the key stops further acceleration; backward then
    // cancels forward.
    e.handle_event(&InputEvent::NewEvents);
    e.handle_event(&key_up(KEY_W));
    e.handle_event(&key_down(KEY_S));
    let v_before = f32::from_bits(e.camera.velocity.z);
    e.handle_event(&InputEvent::RedrawRequested);
    assert!(f32::from_bits(e.camera.velocity.z) < v_before);
}

#[test]
fn acquisition_failures_follow_the_recovery_policy() {
    // An outdated or lost surface is recoverable: reconfigure at the
    // current size and skip the frame; a lost device is fatal.
    let mut e = new_engine();
    let proj = e.renderer.view_proj.proj;
    let camera = e.camera;

    assert_eq!(
        e.handle_acquire_failure(AcquireFailure::Outdated),
        AcquireResponse::ReconfigureAndSkip
    );
    assert_eq!(e.surface_width, 1280);
    assert_eq!(e.surface_height, 720);
    assert_eq!(e.renderer.demo_pass.width, 1280);
    assert_eq!(e.renderer.view_proj.proj, proj);
    assert_eq!(e.camera, camera);

    assert_eq!(
        e.handle_acquire_failure(AcquireFailure::Lost),
        AcquireResponse::ReconfigureAndSkip
    );
    assert_eq!(
        e.handle_acquire_failure(AcquireFailure::DeviceLost),
        AcquireResponse::Exit
    );
    assert_eq!(e.camera, camera);
}

#[test]
fn set_scene_rebuilds_the_renderer_scene() {
    let mut e = new_engine();
    let mesh = Mesh::try_new(
        vec![
            Vertex::new(Vec3b { x: 0, y: 0, z: 0 }),
            Vertex::new(Vec3b { x: 0, y: 0, z: 0 }),
            Vertex::new(Vec3b { x: 0, y: 0, z: 0 }),
        ],
        vec![0, 1, 2],
    )
    .unwrap();
    let scene = Scene {
        objects: vec![SceneObject {
            meshes: vec![mesh],
            materials: vec![None],
            transform: e.renderer.view_proj.view,
        }],
        view: e.renderer.view_proj.view,
    };
    e.set_scene(scene);
    assert_eq!(e.renderer_scene.objects.len(), 1);
    assert_eq!(e.renderer_scene.objects[0].meshes[0].nelems, 3);

    e.set_camera_position(Vec3b { x: 0, y: 0, z: (-3.5f32).to_bits() });
    assert_eq!(f32::from_bits(e.camera.position.z), -3.5);
}
