//! The engine: the state machine behind the event loop.
//!
//! The engine owns the input cache, the camera, the scene and the
//! renderer.  The caller runs the platform's event loop, translates each
//! event into an `InputEvent`, hands it to `handle_event`, and performs
//! the returned `EngineAction` (grab or release the cursor, render the
//! plan of `render`, request a redraw, or exit).  Window creation, device
//! setup, surface configuration and frame submission live with the
//! caller; everything the engine decides per event and per frame is
//! specified here.

use crate::camera::{
    camera_after_look, camera_after_move, camera_after_update_with, default_camera, view_matrix_of,
    Camera, CameraMoveDirection,
};
use crate::quat::QuatB;
use crate::input::{
    ElementState, Input, InputEvent, KeyCode, MouseButton, WindowInputEvent, input_transition,
};
use crate::mat4::identity_mat;
use crate::renderer::{
    clear_black, demo_pass_of, pass_commands, renderer_matches, B_DEPTH_CLEAR, FramePlan, Renderer,
};
use crate::scene::{object_matches, RendererScene, Scene};
use crate::uniform::{viewproj_bytes, ViewProjUniform};
use crate::vec3::{Vec2b, Vec3b};
use vstd::prelude::*;

verus! {

/// Bit pattern of `1.0f32 / 60.0f32`: the fixed per-frame time step.
pub const B_DT: u32 = 0x3C88_8889;

/// The key code the caller maps the forward key to.
pub const KEY_W: KeyCode = 0;

/// The key code the caller maps the strafe-left key to.
pub const KEY_A: KeyCode = 1;

/// The key code the caller maps the backward key to.
pub const KEY_S: KeyCode = 2;

/// The key code the caller maps the strafe-right key to.
pub const KEY_D: KeyCode = 3;

/// The key code the caller maps the escape key to.
pub const KEY_ESCAPE: KeyCode = 4;

/// The key code the caller maps the right control key to.
pub const KEY_RCONTROL: KeyCode = 5;

/// Initialization parameters for `Engine`.
pub struct EngineParams {
    pub window: WindowParams,
}

/// Initialization parameters for the window.
pub struct WindowParams {
    pub size: (u32, u32),
}

/// Supplemental engine state.
#[derive(Clone, Copy, PartialEq, Eq, Structural, Debug)]
pub struct EngineState {
    pub cursor_grabbed: bool,
}

/// Why acquiring the next presentable surface image failed.
#[derive(Clone, Copy, PartialEq, Eq, Structural, Debug)]
pub enum AcquireFailure {
    /// The surface no longer matches the window (recoverable).
    Outdated,
    /// The swapchain was lost and must be recreated (recoverable).
    Lost,
    /// The device itself was lost (fatal).
    DeviceLost,
}

/// What the caller must do after a failed acquisition.
#[derive(Clone, Copy, PartialEq, Eq, Structural, Debug)]
pub enum AcquireResponse {
    /// Reconfigure the surface at the current size and skip this frame.
    ReconfigureAndSkip,
    /// The device is gone: leave the event loop.
    Exit,
}

/// The response owed to each acquisition failure: an outdated or lost
/// surface is recoverable, a lost device is fatal.
pub open spec fn acquire_response_of(f: AcquireFailure) -> AcquireResponse {
    match f {
        AcquireFailure::DeviceLost => AcquireResponse::Exit,
        _ => AcquireResponse::ReconfigureAndSkip,
    }
}

/// What the caller must do after an event.
#[derive(Clone, Copy, PartialEq, Eq, Structural, Debug)]
pub enum EngineAction {
    /// Leave the event loop.
    Exit,
    /// Grab the cursor and hide it.
    GrabCursor,
    /// Release the cursor and show it.
    ReleaseCursor,
    /// Encode and submit the plan of `render`, then present.
    Render,
    /// Ask the window for a redraw.
    RequestRedraw,
    /// Nothing.
    Idle,
}

/// The engine.
pub struct Engine {
    pub input: Input,
    pub surface_width: u32,
    pub surface_height: u32,
    pub renderer: Renderer,
    pub renderer_scene: RendererScene,
    pub scene: Scene,
    pub camera: Camera,
    pub state: EngineState,
}

/// The movement directions held this frame, in the fixed key order
/// forward, left, backward, right.
pub open spec fn held_dirs(inp: Input) -> Seq<CameraMoveDirection> {
    (if inp.key_held@[KEY_W as int] {
        seq![CameraMoveDirection::Forward]
    } else {
        Seq::empty()
    }) + (if inp.key_held@[KEY_A as int] {
        seq![CameraMoveDirection::Left]
    } else {
        Seq::empty()
    }) + (if inp.key_held@[KEY_S as int] {
        seq![CameraMoveDirection::Backward]
    } else {
        Seq::empty()
    }) + (if inp.key_held@[KEY_D as int] {
        seq![CameraMoveDirection::Right]
    } else {
        Seq::empty()
    })
}

/// The mouse motion of the last step as a vector, zero when there was
/// none.
pub open spec fn mouse_diff_of(inp: Input) -> Vec2b {
    match inp.mouse_delta {
        Some(d) => Vec2b { x: d.0, y: d.1 },
        None => Vec2b { x: 0u32, y: 0u32 },
    }
}

/// The camera after this frame's impulses, before the integration step:
/// movement from the held keys, and a look impulse from the mouse while
/// the cursor is grabbed, both with the fixed time step.  The integration
/// step itself is `camera_after_update_with`, whose damping factor and
/// rotation quaternions come from the platform math library.
pub open spec fn engine_impulsed_camera(c: Camera, inp: Input, grabbed: bool) -> Camera {
    let moved = camera_after_move(c, held_dirs(inp), B_DT);
    if grabbed {
        camera_after_look(moved, mouse_diff_of(inp), B_DT)
    } else {
        moved
    }
}

/// Whether an event left both scenes untouched.
pub open spec fn scenes_unchanged(pre: Engine, post: Engine) -> bool {
    &&& post.renderer_scene == pre.renderer_scene
    &&& post.scene == pre.scene
}

/// Whether an event left the surface size and the renderer untouched.
pub open spec fn surface_unchanged(pre: Engine, post: Engine) -> bool {
    &&& post.surface_width == pre.surface_width
    &&& post.surface_height == pre.surface_height
    &&& post.renderer == pre.renderer
}

/// Whether an event changed nothing but the input cache.
pub open spec fn only_input_changed(pre: Engine, post: Engine) -> bool {
    &&& scenes_unchanged(pre, post)
    &&& surface_unchanged(pre, post)
    &&& post.camera == pre.camera
    &&& post.state == pre.state
}

impl Engine {
    /// Build the engine's state for a window of the given size: fresh
    /// input, the renderer for that surface, an empty scene and the
    /// default camera.  The caller creates the window, the device and the
    /// surface itself.
    pub fn new(params: &EngineParams) -> (r: Engine)
        ensures
            r.input.wf(),
            r.input.key_actions@.len() == 0,
            r.input.mouse_actions@.len() == 0,
            forall|i: int| 0 <= i < r.input.key_held@.len() ==> !(#[trigger] r.input.key_held@[i]),
            forall|i: int|
                0 <= i < r.input.mouse_held@.len() ==> !(#[trigger] r.input.mouse_held@[i]),
            r.input.mouse_delta is None,
            r.surface_width == params.window.size.0,
            r.surface_height == params.window.size.1,
            renderer_matches(r.renderer, params.window.size.0, params.window.size.1),
            r.renderer_scene.objects@.len() == 0,
            r.renderer_scene.view == identity_mat(),
            r.scene.objects@.len() == 0,
            r.scene.view == identity_mat(),
            r.camera == default_camera(),
            !r.state.cursor_grabbed,
    {
        let input = Input::new();
        let (width, height) = params.window.size;
        let renderer = Renderer::new(width, height);
        let scene = Scene { objects: Vec::new(), view: crate::mat4::Mat4b::identity() };
        let renderer_scene = RendererScene::empty();
        let camera = Camera::new();
        Engine {
            input,
            surface_width: width,
            surface_height: height,
            renderer,
            renderer_scene,
            scene,
            camera,
            state: EngineState { cursor_grabbed: false },
        }
    }

    /// Reconfigure for a new surface size and rebuild the
    /// size-dependent renderer resources.
    pub fn resize(&mut self, size: (u32, u32))
        ensures
            final(self).surface_width == size.0,
            final(self).surface_height == size.1,
            final(self).renderer == (Renderer {
                demo_pass: demo_pass_of(size.0, size.1),
                ..old(self).renderer
            }),
            final(self).input == old(self).input,
            final(self).renderer_scene == old(self).renderer_scene,
            final(self).scene == old(self).scene,
            final(self).camera == old(self).camera,
            final(self).state == old(self).state,
    {
        self.surface_width = size.0;
        self.surface_height = size.1;
        self.renderer.resize(size.0, size.1);
    }

    /// Advance one frame: apply the held movement keys, the grabbed-cursor
    /// mouse motion, integrate the camera, and publish its view matrix to
    /// the scene and the renderer scene.
    pub fn update(&mut self)
        requires
            old(self).input.wf(),
        ensures
            exists|damp: u32, qp: QuatB, qy: QuatB|
                final(self).camera == camera_after_update_with(
                    engine_impulsed_camera(
                        old(self).camera,
                        old(self).input,
                        old(self).state.cursor_grabbed,
                    ),
                    B_DT,
                    damp,
                    qp,
                    qy,
                ),
            final(self).scene == (Scene {
                view: view_matrix_of(final(self).camera.position, final(self).camera.rotation),
                ..old(self).scene
            }),
            final(self).renderer_scene == (RendererScene {
                view: view_matrix_of(final(self).camera.position, final(self).camera.rotation),
                ..old(self).renderer_scene
            }),
            final(self).input == old(self).input,
            final(self).renderer == old(self).renderer,
            final(self).surface_width == old(self).surface_width,
            final(self).surface_height == old(self).surface_height,
            final(self).state == old(self).state,
    {
        let mut dirs: Vec<CameraMoveDirection> = Vec::new();
        if self.input.key_held(KEY_W) {
            dirs.push(CameraMoveDirection::Forward);
        }
        if self.input.key_held(KEY_A) {
            dirs.push(CameraMoveDirection::Left);
        }
        if self.input.key_held(KEY_S) {
            dirs.push(CameraMoveDirection::Backward);
        }
        if self.input.key_held(KEY_D) {
            dirs.push(CameraMoveDirection::Right);
        }
        proof {
            assert(dirs@ =~= held_dirs(self.input));
        }
        self.camera.move_to(dirs.as_slice(), B_DT);

        if self.state.cursor_grabbed {
            let look_diff = self.input.mouse_diff();
            self.camera.look(Vec2b { x: look_diff.0, y: look_diff.1 }, B_DT);
        }
        let ghost mid_camera = self.camera;

        self.camera.update(B_DT);
        proof {
            assert(mid_camera == engine_impulsed_camera(
                old(self).camera,
                old(self).input,
                old(self).state.cursor_grabbed,
            ));
            let (damp, qp, qy) = choose|damp: u32, qp: QuatB, qy: QuatB|
                self.camera == camera_after_update_with(mid_camera, B_DT, damp, qp, qy);
            assert(self.camera == camera_after_update_with(
                engine_impulsed_camera(
                    old(self).camera,
                    old(self).input,
                    old(self).state.cursor_grabbed,
                ),
                B_DT,
                damp,
                qp,
                qy,
            ));
        }
        let vm = self.camera.matrix();
        self.scene.view = vm;
        self.renderer_scene.view = vm;
    }

    /// Plan the current frame.  The caller acquires the surface image,
    /// encodes the plan, submits and presents.
    pub fn render(&self) -> (plan: FramePlan)
        ensures
            plan.viewproj_upload@ == viewproj_bytes(
                ViewProjUniform {
                    view: self.renderer_scene.view,
                    proj: self.renderer.view_proj.proj,
                },
            ),
            plan.color_clear == clear_black(),
            plan.depth_clear == B_DEPTH_CLEAR,
            plan.commands@ == pass_commands(self.renderer_scene.objects@),
    {
        self.renderer.render(&self.renderer_scene)
    }

    /// Feed one event of the loop: the input cache sees every event, and
    /// the engine reacts — resizing, grabbing or releasing the cursor on
    /// the left button and right control, exiting on close or escape,
    /// advancing and rendering on a redraw, and requesting the next
    /// redraw when the events of an iteration have been handled.
    pub fn handle_event(&mut self, event: &InputEvent) -> (r: EngineAction)
        requires
            old(self).input.wf(),
        ensures
            input_transition(old(self).input, final(self).input, *event),
            final(self).input.wf(),
            match *event {
                InputEvent::Window(w) => match w {
                    WindowInputEvent::Resized { width, height } => {
                        &&& r == EngineAction::Idle
                        &&& final(self).surface_width == width
                        &&& final(self).surface_height == height
                        &&& final(self).renderer == (Renderer {
                            demo_pass: demo_pass_of(width, height),
                            ..old(self).renderer
                        })
                        &&& scenes_unchanged(*old(self), *final(self))
                        &&& final(self).camera == old(self).camera
                        &&& final(self).state == old(self).state
                    },
                    WindowInputEvent::ScaleFactorChanged { width, height } => {
                        &&& r == EngineAction::Idle
                        &&& final(self).surface_width == width
                        &&& final(self).surface_height == height
                        &&& final(self).renderer == (Renderer {
                            demo_pass: demo_pass_of(width, height),
                            ..old(self).renderer
                        })
                        &&& scenes_unchanged(*old(self), *final(self))
                        &&& final(self).camera == old(self).camera
                        &&& final(self).state == old(self).state
                    },
                    WindowInputEvent::CloseRequested => {
                        &&& r == EngineAction::Exit
                        &&& only_input_changed(*old(self), *final(self))
                    },
                    WindowInputEvent::MouseInput { state, button } => {
                        if state == ElementState::Pressed && button == MouseButton::Left {
                            &&& r == EngineAction::GrabCursor
                            &&& final(self).state.cursor_grabbed
                            &&& scenes_unchanged(*old(self), *final(self))
                            &&& surface_unchanged(*old(self), *final(self))
                            &&& final(self).camera == old(self).camera
                        } else {
                            &&& r == EngineAction::Idle
                            &&& only_input_changed(*old(self), *final(self))
                        }
                    },
                    WindowInputEvent::KeyboardInput { state, key_code } => {
                        if state == ElementState::Pressed && key_code == Some(KEY_ESCAPE) {
                            &&& r == EngineAction::Exit
                            &&& only_input_changed(*old(self), *final(self))
                        } else if state == ElementState::Pressed && key_code == Some(
                            KEY_RCONTROL,
                        ) {
                            &&& r == EngineAction::ReleaseCursor
                            &&& !final(self).state.cursor_grabbed
                            &&& scenes_unchanged(*old(self), *final(self))
                            &&& surface_unchanged(*old(self), *final(self))
                            &&& final(self).camera == old(self).camera
                        } else {
                            &&& r == EngineAction::Idle
                            &&& only_input_changed(*old(self), *final(self))
                        }
                    },
                    _ => {
                        &&& r == EngineAction::Idle
                        &&& only_input_changed(*old(self), *final(self))
                    },
                },
                InputEvent::RedrawRequested => {
                    &&& r == EngineAction::Render
                    &&& exists|damp: u32, qp: QuatB, qy: QuatB|
                        final(self).camera == camera_after_update_with(
                            engine_impulsed_camera(
                                old(self).camera,
                                old(self).input,
                                old(self).state.cursor_grabbed,
                            ),
                            B_DT,
                            damp,
                            qp,
                            qy,
                        )
                    &&& final(self).scene == (Scene {
                        view: view_matrix_of(
                            final(self).camera.position,
                            final(self).camera.rotation,
                        ),
                        ..old(self).scene
                    })
                    &&& final(self).renderer_scene == (RendererScene {
                        view: view_matrix_of(
                            final(self).camera.position,
                            final(self).camera.rotation,
                        ),
                        ..old(self).renderer_scene
                    })
                    &&& surface_unchanged(*old(self), *final(self))
                    &&& final(self).state == old(self).state
                },
                InputEvent::MainEventsCleared => {
                    &&& r == EngineAction::RequestRedraw
                    &&& only_input_changed(*old(self), *final(self))
                },
                _ => {
                    &&& r == EngineAction::Idle
                    &&& only_input_changed(*old(self), *final(self))
                },
            },
    {
        self.input.update(event);
        match event {
            InputEvent::Window(w) => match w {
                WindowInputEvent::Resized { width, height } => {
                    self.resize((*width, *height));
                    EngineAction::Idle
                },
                WindowInputEvent::ScaleFactorChanged { width, height } => {
                    self.resize((*width, *height));
                    EngineAction::Idle
                },
                WindowInputEvent::CloseRequested => EngineAction::Exit,
                WindowInputEvent::MouseInput { state, button } => {
                    if *state == ElementState::Pressed && *button == MouseButton::Left {
                        self.state.cursor_grabbed = true;
                        EngineAction::GrabCursor
                    } else {
                        EngineAction::Idle
                    }
                },
                WindowInputEvent::KeyboardInput { state, key_code } => {
                    if *state == ElementState::Pressed && *key_code == Some(KEY_ESCAPE) {
                        EngineAction::Exit
                    } else if *state == ElementState::Pressed && *key_code == Some(KEY_RCONTROL) {
                        self.state.cursor_grabbed = false;
                        EngineAction::ReleaseCursor
                    } else {
                        EngineAction::Idle
                    }
                },
                _ => EngineAction::Idle,
            },
            InputEvent::RedrawRequested => {
                self.update();
                EngineAction::Render
            },
            InputEvent::MainEventsCleared => EngineAction::RequestRedraw,
            _ => EngineAction::Idle,
        }
    }

    /// React to a failed surface acquisition.  An outdated or lost
    /// surface is recoverable: the size-dependent renderer resources are
    /// rebuilt so the caller can reconfigure the surface at the current
    /// size and skip rendering this tick.  A lost device is fatal: the
    /// caller must leave the loop; nothing changes.
    pub fn handle_acquire_failure(&mut self, failure: AcquireFailure) -> (r: AcquireResponse)
        ensures
            r == acquire_response_of(failure),
            r == AcquireResponse::Exit ==> *final(self) == *old(self),
            r == AcquireResponse::ReconfigureAndSkip ==> {
                &&& final(self).renderer == (Renderer {
                    demo_pass: demo_pass_of(old(self).surface_width, old(self).surface_height),
                    ..old(self).renderer
                })
                &&& final(self).surface_width == old(self).surface_width
                &&& final(self).surface_height == old(self).surface_height
                &&& final(self).input == old(self).input
                &&& final(self).renderer_scene == old(self).renderer_scene
                &&& final(self).scene == old(self).scene
                &&& final(self).camera == old(self).camera
                &&& final(self).state == old(self).state
            },
    {
        match failure {
            AcquireFailure::Outdated | AcquireFailure::Lost => {
                let size = (self.surface_width, self.surface_height);
                self.resize(size);
                AcquireResponse::ReconfigureAndSkip
            },
            AcquireFailure::DeviceLost => AcquireResponse::Exit,
        }
    }

    /// Replace the scene wholesale and rebuild its renderer-side form.
    pub fn set_scene(&mut self, scene: Scene)
        requires
            forall|i: int, j: int|
                0 <= i < scene.objects@.len() && 0 <= j < scene.objects@[i].meshes@.len()
                    ==> (#[trigger] scene.objects@[i].meshes@[j]).indices@.len() <= u32::MAX,
        ensures
            final(self).scene == scene,
            final(self).renderer_scene.view == scene.view,
            final(self).renderer_scene.objects@.len() == scene.objects@.len(),
            forall|i: int|
                0 <= i < scene.objects@.len() ==> object_matches(
                    #[trigger] final(self).renderer_scene.objects@[i],
                    scene.objects@[i],
                ),
            final(self).input == old(self).input,
            final(self).camera == old(self).camera,
            final(self).renderer == old(self).renderer,
            final(self).state == old(self).state,
    {
        self.scene = scene;
        self.renderer_scene = self.renderer.create_scene(&self.scene);
    }

    /// Place the camera.
    pub fn set_camera_position(&mut self, position: Vec3b)
        ensures
            final(self).camera == (Camera { position, ..old(self).camera }),
            final(self).input == old(self).input,
            final(self).scene == old(self).scene,
            final(self).renderer_scene == old(self).renderer_scene,
            final(self).renderer == old(self).renderer,
            final(self).state == old(self).state,
    {
        self.camera.set_position(position);
    }
}

} // verus!
