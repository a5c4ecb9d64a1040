//! Input state helper.
//!
//! Feed every event of the platform's event loop to `Input::update`; a
//! `true` result signals that a step has completed.  Key codes are small
//! integers assigned by the caller's event translation; cursor and motion
//! coordinates are IEEE-754 bit patterns.  Held state covers the whole
//! code range, edge transitions are recorded per step.

use crate::numeric::{f32_sub, f32_sub_of};
use vstd::prelude::*;

verus! {

/// A key identified by a small code.
pub type KeyCode = u8;

/// Number of key and button slots: the whole code range.
pub const HELD_SLOTS: usize = 256;

/// A mouse button.
#[derive(Clone, Copy, PartialEq, Eq, Structural, Debug)]
pub enum MouseButton {
    Left,
    Right,
    Middle,
    Other(u8),
}

/// Whether a key or button went down or up.
#[derive(Clone, Copy, PartialEq, Eq, Structural, Debug)]
pub enum ElementState {
    Pressed,
    Released,
}

/// A key transition recorded during the current step.
#[derive(Clone, Copy, PartialEq, Eq, Structural, Debug)]
pub enum KeyAction {
    Pressed(KeyCode),
    Released(KeyCode),
}

/// A button transition recorded during the current step.
#[derive(Clone, Copy, PartialEq, Eq, Structural, Debug)]
pub enum MouseAction {
    Pressed(MouseButton),
    Released(MouseButton),
}

/// A window-scoped event, as the caller translates it.
#[derive(Clone, Copy, PartialEq, Eq, Structural, Debug)]
pub enum WindowInputEvent {
    Resized { width: u32, height: u32 },
    ScaleFactorChanged { width: u32, height: u32 },
    CloseRequested,
    KeyboardInput { state: ElementState, key_code: Option<KeyCode> },
    MouseInput { state: ElementState, button: MouseButton },
    CursorMoved { x: u32, y: u32 },
    Other,
}

/// A device-scoped event.
#[derive(Clone, Copy, PartialEq, Eq, Structural, Debug)]
pub enum DeviceInputEvent {
    MouseMotion { dx: u32, dy: u32 },
    Other,
}

/// One event of the platform's event loop.
#[derive(Clone, Copy, PartialEq, Eq, Structural, Debug)]
pub enum InputEvent {
    NewEvents,
    Window(WindowInputEvent),
    Device(DeviceInputEvent),
    RedrawRequested,
    MainEventsCleared,
    Other,
}

/// The held-state slot of a button.
pub open spec fn button_index(b: MouseButton) -> int {
    match b {
        MouseButton::Left => 0,
        MouseButton::Right => 1,
        MouseButton::Middle => 2,
        MouseButton::Other(byte) => byte as int,
    }
}

/// Input state: per-step transition lists, held state, and cursor
/// tracking.
#[derive(Clone, PartialEq, Debug)]
pub struct Input {
    pub mouse_actions: Vec<MouseAction>,
    pub key_actions: Vec<KeyAction>,
    pub key_held: Vec<bool>,
    pub mouse_held: Vec<bool>,
    pub mouse_delta: Option<(u32, u32)>,
    pub cursor_point: Option<(u32, u32)>,
    pub cursor_point_prev: Option<(u32, u32)>,
}

impl Input {
    /// One held slot for every key and button code.
    pub open spec fn wf(&self) -> bool {
        &&& self.key_held@.len() == HELD_SLOTS
        &&& self.mouse_held@.len() == HELD_SLOTS
    }
}

/// How one window event changes the state.
pub open spec fn window_transition(pre: Input, post: Input, e: WindowInputEvent) -> bool {
    match e {
        WindowInputEvent::KeyboardInput { state, key_code } => match key_code {
            Some(k) => match state {
                ElementState::Pressed => post == (Input {
                    key_held: post.key_held,
                    key_actions: post.key_actions,
                    ..pre
                }) && post.key_held@ == pre.key_held@.update(k as int, true)
                    && post.key_actions@ == pre.key_actions@.push(KeyAction::Pressed(k)),
                ElementState::Released => post == (Input {
                    key_held: post.key_held,
                    key_actions: post.key_actions,
                    ..pre
                }) && post.key_held@ == pre.key_held@.update(k as int, false)
                    && post.key_actions@ == pre.key_actions@.push(KeyAction::Released(k)),
            },
            None => post == pre,
        },
        WindowInputEvent::MouseInput { state, button } => match state {
            ElementState::Pressed => post == (Input {
                mouse_held: post.mouse_held,
                mouse_actions: post.mouse_actions,
                ..pre
            }) && post.mouse_held@ == pre.mouse_held@.update(button_index(button), true)
                && post.mouse_actions@ == pre.mouse_actions@.push(MouseAction::Pressed(button)),
            ElementState::Released => post == (Input {
                mouse_held: post.mouse_held,
                mouse_actions: post.mouse_actions,
                ..pre
            }) && post.mouse_held@ == pre.mouse_held@.update(button_index(button), false)
                && post.mouse_actions@ == pre.mouse_actions@.push(MouseAction::Released(button)),
        },
        WindowInputEvent::CursorMoved { x, y } => post == (Input {
            cursor_point: Some((x, y)),
            ..pre
        }),
        _ => post == pre,
    }
}

/// How the start of a step clears the state: transition lists and the
/// motion delta emptied, the cursor remembered.
pub open spec fn step_transition(pre: Input, post: Input) -> bool {
    &&& post.mouse_actions@ == Seq::<MouseAction>::empty()
    &&& post.key_actions@ == Seq::<KeyAction>::empty()
    &&& post.mouse_delta is None
    &&& post.cursor_point_prev == pre.cursor_point
    &&& post.cursor_point == pre.cursor_point
    &&& post.key_held@ == pre.key_held@
    &&& post.mouse_held@ == pre.mouse_held@
}

/// How one event of the loop changes the state.
pub open spec fn input_transition(pre: Input, post: Input, e: InputEvent) -> bool {
    match e {
        InputEvent::NewEvents => step_transition(pre, post),
        InputEvent::Window(w) => window_transition(pre, post, w),
        InputEvent::Device(d) => match d {
            DeviceInputEvent::MouseMotion { dx, dy } => post == (Input {
                mouse_delta: Some((dx, dy)),
                ..pre
            }),
            DeviceInputEvent::Other => post == pre,
        },
        _ => post == pre,
    }
}

impl Input {
    /// Fresh state: nothing held, nothing recorded, no cursor seen.
    pub fn new() -> (r: Input)
        ensures
            r.wf(),
            r.mouse_actions@ == Seq::<MouseAction>::empty(),
            r.key_actions@ == Seq::<KeyAction>::empty(),
            forall|i: int| 0 <= i < HELD_SLOTS ==> !(#[trigger] r.key_held@[i]),
            forall|i: int| 0 <= i < HELD_SLOTS ==> !(#[trigger] r.mouse_held@[i]),
            r.mouse_delta is None,
            r.cursor_point is None,
            r.cursor_point_prev is None,
    {
        let mut key_held: Vec<bool> = Vec::new();
        let mut i: usize = 0;
        while i < HELD_SLOTS
            invariant
                i <= HELD_SLOTS,
                key_held@.len() == i,
                forall|j: int| 0 <= j < i ==> !(#[trigger] key_held@[j]),
            decreases HELD_SLOTS - i,
        {
            key_held.push(false);
            i = i + 1;
        }
        let mut mouse_held: Vec<bool> = Vec::new();
        let mut j: usize = 0;
        while j < HELD_SLOTS
            invariant
                j <= HELD_SLOTS,
                mouse_held@.len() == j,
                forall|i2: int| 0 <= i2 < j ==> !(#[trigger] mouse_held@[i2]),
            decreases HELD_SLOTS - j,
        {
            mouse_held.push(false);
            j = j + 1;
        }
        Input {
            mouse_actions: Vec::new(),
            key_actions: Vec::new(),
            key_held,
            mouse_held,
            mouse_delta: None,
            cursor_point: None,
            cursor_point_prev: None,
        }
    }

    /// Start a new step: forget transitions and motion, remember the
    /// cursor.
    fn step(&mut self)
        ensures
            step_transition(*old(self), *final(self)),
            final(self).wf() == old(self).wf(),
    {
        self.mouse_actions = Vec::new();
        self.key_actions = Vec::new();
        self.mouse_delta = None;
        self.cursor_point_prev = self.cursor_point;
    }

    /// Record one window event.
    fn handle_window_event(&mut self, event: &WindowInputEvent)
        requires
            old(self).wf(),
        ensures
            window_transition(*old(self), *final(self), *event),
            final(self).wf(),
    {
        match event {
            WindowInputEvent::KeyboardInput { state, key_code } => {
                if let Some(keycode) = key_code {
                    match state {
                        ElementState::Pressed => {
                            self.key_held[*keycode as usize] = true;
                            self.key_actions.push(KeyAction::Pressed(*keycode));
                        },
                        ElementState::Released => {
                            self.key_held[*keycode as usize] = false;
                            self.key_actions.push(KeyAction::Released(*keycode));
                        },
                    }
                }
            },
            WindowInputEvent::MouseInput { state, button } => match state {
                ElementState::Pressed => {
                    self.mouse_held[mouse_button_to_int(*button)] = true;
                    self.mouse_actions.push(MouseAction::Pressed(*button));
                },
                ElementState::Released => {
                    self.mouse_held[mouse_button_to_int(*button)] = false;
                    self.mouse_actions.push(MouseAction::Released(*button));
                },
            },
            WindowInputEvent::CursorMoved { x, y } => {
                self.cursor_point = Some((*x, *y));
            },
            _ => (),
        }
    }

    /// Record one device event.
    fn handle_device_event(&mut self, event: &DeviceInputEvent)
        ensures
            match *event {
                DeviceInputEvent::MouseMotion { dx, dy } => *final(self) == (Input {
                    mouse_delta: Some((dx, dy)),
                    ..*old(self)
                }),
                DeviceInputEvent::Other => *final(self) == *old(self),
            },
    {
        match event {
            DeviceInputEvent::MouseMotion { dx, dy } => {
                self.mouse_delta = Some((*dx, *dy));
            },
            _ => (),
        }
    }

    /// Feed one event of the loop.
    ///
    /// `NewEvents` clears the per-step state; window and device events
    /// update it; `MainEventsCleared` returns true, signifying that a step
    /// has completed.
    pub fn update(&mut self, event: &InputEvent) -> (r: bool)
        requires
            old(self).wf(),
        ensures
            input_transition(*old(self), *final(self), *event),
            final(self).wf(),
            r == (*event is MainEventsCleared),
    {
        match event {
            InputEvent::NewEvents => {
                self.step();
                false
            },
            InputEvent::Window(e) => {
                self.handle_window_event(e);
                false
            },
            InputEvent::Device(e) => {
                self.handle_device_event(e);
                false
            },
            InputEvent::MainEventsCleared => true,
            _ => false,
        }
    }

    /// True when the key went from "not pressed" to "pressed" during this
    /// step.
    pub fn key_pressed(&self, key_code: KeyCode) -> (r: bool)
        ensures
            r == self.key_actions@.contains(KeyAction::Pressed(key_code)),
    {
        let mut i: usize = 0;
        while i < self.key_actions.len()
            invariant
                i <= self.key_actions@.len(),
                forall|j: int|
                    0 <= j < i ==> self.key_actions@[j] != KeyAction::Pressed(key_code),
            decreases self.key_actions@.len() - i,
        {
            if self.key_actions[i] == KeyAction::Pressed(key_code) {
                return true;
            }
            i = i + 1;
        }
        false
    }

    /// True when the button went from "not pressed" to "pressed" during
    /// this step.
    pub fn mouse_pressed(&self, mouse_button: MouseButton) -> (r: bool)
        ensures
            r == self.mouse_actions@.contains(MouseAction::Pressed(mouse_button)),
    {
        let mut i: usize = 0;
        while i < self.mouse_actions.len()
            invariant
                i <= self.mouse_actions@.len(),
                forall|j: int|
                    0 <= j < i ==> self.mouse_actions@[j] != MouseAction::Pressed(mouse_button),
            decreases self.mouse_actions@.len() - i,
        {
            if self.mouse_actions[i] == MouseAction::Pressed(mouse_button) {
                return true;
            }
            i = i + 1;
        }
        false
    }

    /// True when the key went from "pressed" to "not pressed" during this
    /// step.
    pub fn key_released(&self, key_code: KeyCode) -> (r: bool)
        ensures
            r == self.key_actions@.contains(KeyAction::Released(key_code)),
    {
        let mut i: usize = 0;
        while i < self.key_actions.len()
            invariant
                i <= self.key_actions@.len(),
                forall|j: int|
                    0 <= j < i ==> self.key_actions@[j] != KeyAction::Released(key_code),
            decreases self.key_actions@.len() - i,
        {
            if self.key_actions[i] == KeyAction::Released(key_code) {
                return true;
            }
            i = i + 1;
        }
        false
    }

    /// True when the button went from "pressed" to "not pressed" during
    /// this step.
    pub fn mouse_released(&self, mouse_button: MouseButton) -> (r: bool)
        ensures
            r == self.mouse_actions@.contains(MouseAction::Released(mouse_button)),
    {
        let mut i: usize = 0;
        while i < self.mouse_actions.len()
            invariant
                i <= self.mouse_actions@.len(),
                forall|j: int|
                    0 <= j < i ==> self.mouse_actions@[j] != MouseAction::Released(mouse_button),
            decreases self.mouse_actions@.len() - i,
        {
            if self.mouse_actions[i] == MouseAction::Released(mouse_button) {
                return true;
            }
            i = i + 1;
        }
        false
    }

    /// True while the key remains pressed.
    pub fn key_held(&self, key_code: KeyCode) -> (r: bool)
        requires
            self.wf(),
        ensures
            r == self.key_held@[key_code as int],
    {
        self.key_held[key_code as usize]
    }

    /// True while the button remains pressed.
    pub fn mouse_held(&self, mouse_button: MouseButton) -> (r: bool)
        requires
            self.wf(),
        ensures
            r == self.mouse_held@[button_index(mouse_button)],
    {
        self.mouse_held[mouse_button_to_int(mouse_button)]
    }

    /// The mouse motion of the last step, zero when there was none.
    pub fn mouse_diff(&self) -> (r: (u32, u32))
        ensures
            r == match self.mouse_delta {
                Some(d) => d,
                None => (0u32, 0u32),
            },
    {
        match self.mouse_delta {
            Some(d) => d,
            None => (0, 0),
        }
    }

    /// The cursor position, `None` while the cursor is outside the
    /// window.
    pub fn cursor(&self) -> (r: Option<(u32, u32)>)
        ensures
            r == self.cursor_point,
    {
        self.cursor_point
    }

    /// The change in cursor coordinates over the last step, zero when the
    /// cursor is outside the window.
    pub fn cursor_diff(&self) -> (r: (u32, u32))
        ensures
            r == match (self.cursor_point, self.cursor_point_prev) {
                (Some(cur), Some(prev)) => (f32_sub_of(cur.0, prev.0), f32_sub_of(cur.1, prev.1)),
                _ => (0u32, 0u32),
            },
    {
        match (self.cursor_point, self.cursor_point_prev) {
            (Some(cur), Some(prev)) => (f32_sub(cur.0, prev.0), f32_sub(cur.1, prev.1)),
            _ => (0, 0),
        }
    }
}

/// The held-state slot of a button.
fn mouse_button_to_int(button: MouseButton) -> (r: usize)
    ensures
        r == button_index(button),
        r < HELD_SLOTS,
{
    match button {
        MouseButton::Left => 0,
        MouseButton::Right => 1,
        MouseButton::Middle => 2,
        MouseButton::Other(byte) => byte as usize,
    }
}

} // verus!
