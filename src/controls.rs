//! Which camera movements the keyboard currently asks for.
use vstd::prelude::*;

verus! {

/// The keys the camera responds to; every other key is `Other`.
#[derive(Clone, Copy, Debug, PartialEq, Eq, Structural)]
pub enum Key {
    Space,
    LShift,
    W,
    A,
    S,
    D,
    Up,
    Down,
    Left,
    Right,
    Other,
}

/// The movement keys held down.
#[derive(Clone, Copy, Debug, PartialEq, Eq, Structural)]
pub struct CameraController {
    pub is_up_pressed: bool,
    pub is_down_pressed: bool,
    pub is_forward_pressed: bool,
    pub is_backward_pressed: bool,
    pub is_left_pressed: bool,
    pub is_right_pressed: bool,
}

/// The controller after `key` went down (`pressed`) or up: space moves up,
/// left shift down, W or Up forward, S or Down backward, A or Left left, D or
/// Right right.
pub open spec fn after_key(c: CameraController, key: Key, pressed: bool) -> CameraController {
    match key {
        Key::Space => CameraController { is_up_pressed: pressed, ..c },
        Key::LShift => CameraController { is_down_pressed: pressed, ..c },
        Key::W | Key::Up => CameraController { is_forward_pressed: pressed, ..c },
        Key::A | Key::Left => CameraController { is_left_pressed: pressed, ..c },
        Key::S | Key::Down => CameraController { is_backward_pressed: pressed, ..c },
        Key::D | Key::Right => CameraController { is_right_pressed: pressed, ..c },
        Key::Other => c,
    }
}

impl CameraController {
    /// No key held.
    pub fn new() -> (r: CameraController)
        ensures
            !r.is_up_pressed && !r.is_down_pressed && !r.is_forward_pressed && !r.is_backward_pressed
                && !r.is_left_pressed && !r.is_right_pressed,
    {
        CameraController {
            is_up_pressed: false,
            is_down_pressed: false,
            is_forward_pressed: false,
            is_backward_pressed: false,
            is_left_pressed: false,
            is_right_pressed: false,
        }
    }

    /// Records a key going down or up; tells whether the key moves the camera.
    pub fn process_events(&mut self, key: Key, pressed: bool) -> (r: bool)
        ensures
            *final(self) == after_key(*old(self), key, pressed),
            r <==> key != Key::Other,
    {
        match key {
            Key::Space => {
                self.is_up_pressed = pressed;
                true
            },
            Key::LShift => {
                self.is_down_pressed = pressed;
                true
            },
            Key::W | Key::Up => {
                self.is_forward_pressed = pressed;
                true
            },
            Key::A | Key::Left => {
                self.is_left_pressed = pressed;
                true
            },
            Key::S | Key::Down => {
                self.is_backward_pressed = pressed;
                true
            },
            Key::D | Key::Right => {
                self.is_right_pressed = pressed;
                true
            },
            Key::Other => false,
        }
    }
}

} // verus!
