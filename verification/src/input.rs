use vstd::prelude::*;

verus! {

/// Pressed state of the keys the game reads.
#[derive(Clone, Copy, PartialEq, Eq, Structural, Debug)]
pub struct Input {
    pub key_up: bool,
    pub key_down: bool,
    pub key_left: bool,
    pub key_right: bool,
    pub key_w: bool,
    pub key_s: bool,
    pub key_a: bool,
    pub key_d: bool,
    pub key_space: bool,
}

/// The physical keys the game distinguishes; everything else is `Other`.
#[derive(Clone, Copy, PartialEq, Eq, Structural, Debug)]
pub enum KeyCode {
    ArrowUp,
    ArrowDown,
    ArrowLeft,
    ArrowRight,
    KeyW,
    KeyS,
    KeyA,
    KeyD,
    Space,
    Other,
}

/// The input state after a key changed to `pressed`: the flag of that key is
/// replaced, every other flag is kept.
pub open spec fn key_applied(i: Input, key: KeyCode, pressed: bool) -> Input {
    match key {
        KeyCode::ArrowUp => Input { key_up: pressed, ..i },
        KeyCode::ArrowDown => Input { key_down: pressed, ..i },
        KeyCode::ArrowLeft => Input { key_left: pressed, ..i },
        KeyCode::ArrowRight => Input { key_right: pressed, ..i },
        KeyCode::KeyW => Input { key_w: pressed, ..i },
        KeyCode::KeyS => Input { key_s: pressed, ..i },
        KeyCode::KeyA => Input { key_a: pressed, ..i },
        KeyCode::KeyD => Input { key_d: pressed, ..i },
        KeyCode::Space => Input { key_space: pressed, ..i },
        KeyCode::Other => i,
    }
}

impl Input {
    /// Fresh input state: no key pressed.
    pub fn new() -> (r: Input)
        ensures
            r == (Input {
                key_up: false,
                key_down: false,
                key_left: false,
                key_right: false,
                key_w: false,
                key_s: false,
                key_a: false,
                key_d: false,
                key_space: false,
            }),
    {
        Input {
            key_up: false,
            key_down: false,
            key_left: false,
            key_right: false,
            key_w: false,
            key_s: false,
            key_a: false,
            key_d: false,
            key_space: false,
        }
    }

    /// Records that `key` changed to the `pressed` state.
    pub fn handle_key_event(&mut self, key: KeyCode, pressed: bool)
        ensures
            *final(self) == key_applied(*old(self), key, pressed),
    {
        match key {
            KeyCode::ArrowUp => self.key_up = pressed,
            KeyCode::ArrowDown => self.key_down = pressed,
            KeyCode::ArrowLeft => self.key_left = pressed,
            KeyCode::ArrowRight => self.key_right = pressed,
            KeyCode::KeyW => self.key_w = pressed,
            KeyCode::KeyS => self.key_s = pressed,
            KeyCode::KeyA => self.key_a = pressed,
            KeyCode::KeyD => self.key_d = pressed,
            KeyCode::Space => self.key_space = pressed,
            KeyCode::Other => {},
        }
    }
}

} // verus!
