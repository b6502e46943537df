//! Input events and the range checks that guard them.
use vstd::prelude::*;

verus! {

/// The highest mouse button index that may be synthesized.
pub const MAX_BUTTON: u32 = 10;

/// The keysym value that stands for "no such symbol".
pub const NO_SYMBOL: u64 = 0;

/// Whether a synthesized event presses or releases.
#[derive(Clone, Copy, Debug, PartialEq, Eq, Structural)]
pub enum ButtonState {
    Pressed,
    Released,
}

impl ButtonState {
    /// The `is_press` flag that the input-synthesis extension expects.
    pub open spec fn flag_spec(self) -> i32 {
        match self {
            ButtonState::Pressed => 1,
            ButtonState::Released => 0,
        }
    }

    pub fn flag(self) -> (r: i32)
        ensures
            r == self.flag_spec(),
    {
        match self {
            ButtonState::Pressed => 1,
            ButtonState::Released => 0,
        }
    }

    /// The transition asked for by a `release` switch.
    pub fn from_release(release: bool) -> (r: ButtonState)
        ensures
            r == (if release { ButtonState::Released } else { ButtonState::Pressed }),
    {
        if release {
            ButtonState::Released
        } else {
            ButtonState::Pressed
        }
    }
}

/// One synthesized input event.
#[derive(Clone, Copy, Debug, PartialEq, Eq, Structural)]
pub enum InputEvent {
    Key { keycode: u8, state: ButtonState },
    Button { button: u32, state: ButtonState },
}

/// Whether `button` is a mouse button index that may be synthesized.
pub fn button_in_range(button: u32) -> (r: bool)
    ensures
        r == (button <= MAX_BUTTON),
{
    button <= MAX_BUTTON
}

/// Whether `keycode` lies in the inclusive keycode interval `[min, max]`.
pub fn keycode_in_range(keycode: u8, min: i32, max: i32) -> (r: bool)
    ensures
        r == (min <= keycode as int && keycode as int <= max),
{
    let k = keycode as i32;
    min <= k && k <= max
}

} // verus!
