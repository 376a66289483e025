//! Press and release, and where a key report came from.
use vstd::prelude::*;

verus! {

/// Android's `KeyEvent.ACTION_DOWN`; every other action code reads as a release.
pub const ACTION_DOWN: i32 = 0;

#[derive(PartialEq, Eq, Structural, Clone, Copy, Debug)]
pub enum KeyAction {
    Down,
    Up,
}

#[derive(PartialEq, Eq, Structural, Clone, Copy, Debug)]
pub enum InputSource {
    Keyboard,
    Gamepad,
}

/// The action that an Android action code stands for.
pub open spec fn action_of_code(code: i32) -> KeyAction {
    if code == ACTION_DOWN {
        KeyAction::Down
    } else {
        KeyAction::Up
    }
}

/// The action that a sampled button state stands for: held means down.
pub open spec fn action_of_pressed(pressed: bool) -> KeyAction {
    if pressed {
        KeyAction::Down
    } else {
        KeyAction::Up
    }
}

impl KeyAction {
    pub open spec fn name(self) -> Seq<char> {
        match self {
            KeyAction::Down => "Down"@,
            KeyAction::Up => "Up"@,
        }
    }

    /// The action's name, `"Down"` or `"Up"`.
    pub fn as_str(&self) -> (r: &'static str)
        ensures
            r@ == self.name(),
    {
        match self {
            KeyAction::Down => "Down",
            KeyAction::Up => "Up",
        }
    }
}

impl From<i32> for KeyAction {
    fn from(code: i32) -> (r: KeyAction)
        ensures
            r == action_of_code(code),
    {
        if code == ACTION_DOWN {
            KeyAction::Down
        } else {
            KeyAction::Up
        }
    }
}

impl vstd::std_specs::convert::FromSpecImpl<i32> for KeyAction {
    open spec fn obeys_from_spec() -> bool {
        true
    }

    open spec fn from_spec(code: i32) -> KeyAction {
        action_of_code(code)
    }
}

impl From<bool> for KeyAction {
    fn from(pressed: bool) -> (r: KeyAction)
        ensures
            r == action_of_pressed(pressed),
    {
        if pressed {
            KeyAction::Down
        } else {
            KeyAction::Up
        }
    }
}

impl vstd::std_specs::convert::FromSpecImpl<bool> for KeyAction {
    open spec fn obeys_from_spec() -> bool {
        true
    }

    open spec fn from_spec(pressed: bool) -> KeyAction {
        action_of_pressed(pressed)
    }
}

} // verus!
