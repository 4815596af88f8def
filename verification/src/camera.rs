//! Keyboard state for the fly-through camera. The controller records which
//! movement keys are held; the host translates the flags into camera motion
//! (floating-point work it keeps for itself) once per frame.

use vstd::prelude::*;

verus! {

/// The physical keys the camera reacts to. Anything else is reported as
/// unhandled so the host can route it elsewhere.
#[derive(Clone, Copy, Debug, PartialEq, Eq, Structural)]
pub enum CameraKey {
    Space,
    ShiftLeft,
    KeyW,
    ArrowUp,
    KeyA,
    ArrowLeft,
    KeyS,
    ArrowDown,
    KeyD,
    ArrowRight,
    Other,
}

/// Which movement keys are currently held.
#[derive(Clone, Copy, Debug, PartialEq, Eq, Structural)]
pub struct CameraController {
    pub is_up_pressed: bool,
    pub is_down_pressed: bool,
    pub is_forward_pressed: bool,
    pub is_backward_pressed: bool,
    pub is_left_pressed: bool,
    pub is_right_pressed: bool,
}

impl CameraController {
    /// A controller with no key held.
    pub fn new() -> (r: CameraController)
        ensures
            r == (CameraController {
                is_up_pressed: false,
                is_down_pressed: false,
                is_forward_pressed: false,
                is_backward_pressed: false,
                is_left_pressed: false,
                is_right_pressed: false,
            }),
    {
        CameraController {
            is_up_pressed: false,
            is_down_pressed: false,
            is_forward_pressed: false,
            is_backward_pressed: false,
            is_left_pressed: false,
            is_right_pressed: false,
        }
    }

    /// Records a key press or release. Exactly the flag of the pressed key
    /// changes — W and the up arrow both steer forward, A and the left
    /// arrow left, and so on — and the call reports whether the key was one
    /// the camera handles.
    pub fn process_events(&mut self, key: CameraKey, pressed: bool) -> (r: bool)
        ensures
            r == (key != CameraKey::Other),
            final(self).is_up_pressed == if key == CameraKey::Space {
                pressed
            } else {
                old(self).is_up_pressed
            },
            final(self).is_down_pressed == if key == CameraKey::ShiftLeft {
                pressed
            } else {
                old(self).is_down_pressed
            },
            final(self).is_forward_pressed == if key == CameraKey::KeyW || key
                == CameraKey::ArrowUp {
                pressed
            } else {
                old(self).is_forward_pressed
            },
            final(self).is_backward_pressed == if key == CameraKey::KeyS || key
                == CameraKey::ArrowDown {
                pressed
            } else {
                old(self).is_backward_pressed
            },
            final(self).is_left_pressed == if key == CameraKey::KeyA || key
                == CameraKey::ArrowLeft {
                pressed
            } else {
                old(self).is_left_pressed
            },
            final(self).is_right_pressed == if key == CameraKey::KeyD || key
                == CameraKey::ArrowRight {
                pressed
            } else {
                old(self).is_right_pressed
            },
    {
        match key {
            CameraKey::Space => {
                self.is_up_pressed = pressed;
                true
            },
            CameraKey::ShiftLeft => {
                self.is_down_pressed = pressed;
                true
            },
            CameraKey::KeyW | CameraKey::ArrowUp => {
                self.is_forward_pressed = pressed;
                true
            },
            CameraKey::KeyA | CameraKey::ArrowLeft => {
                self.is_left_pressed = pressed;
                true
            },
            CameraKey::KeyS | CameraKey::ArrowDown => {
                self.is_backward_pressed = pressed;
                true
            },
            CameraKey::KeyD | CameraKey::ArrowRight => {
                self.is_right_pressed = pressed;
                true
            },
            CameraKey::Other => false,
        }
    }
}

} // verus!
