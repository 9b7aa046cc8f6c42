//! The key codes the game understands, as a terminal's keypad mode
//! reports them: letters by their character code, special keys by the
//! codes above the byte range.

use crate::utils::Direction;
use vstd::prelude::*;

verus! {

/// What a poll reports when no key is waiting.
pub const NO_KEY: i32 = -1;

/// The line feed that the return key sends.
pub const KEY_RETURN: i32 = 10;

pub const KEY_ESCAPE: i32 = 27;

pub const KEY_A: i32 = 97;

pub const KEY_D: i32 = 100;

pub const KEY_S: i32 = 115;

pub const KEY_W: i32 = 119;

pub const KEY_DOWN: i32 = 258;

pub const KEY_UP: i32 = 259;

pub const KEY_LEFT: i32 = 260;

pub const KEY_RIGHT: i32 = 261;

pub const KEY_BACKSPACE: i32 = 263;

/// The keypad's enter key.
pub const KEY_ENTER: i32 = 343;

/// The direction a key asks for, for the keys that steer: `w a s d`
/// and the four arrows.
pub open spec fn direction_of_spec(code: i32) -> Option<Direction> {
    if code == KEY_W || code == KEY_UP {
        Some(Direction::TOP)
    } else if code == KEY_A || code == KEY_LEFT {
        Some(Direction::LEFT)
    } else if code == KEY_S || code == KEY_DOWN {
        Some(Direction::BOTTOM)
    } else if code == KEY_D || code == KEY_RIGHT {
        Some(Direction::RIGHT)
    } else {
        None
    }
}

#[verifier::when_used_as_spec(direction_of_spec)]
pub fn direction_of(code: i32) -> (r: Option<Direction>)
    ensures
        r == direction_of_spec(code),
{
    if code == KEY_W || code == KEY_UP {
        Some(Direction::TOP)
    } else if code == KEY_A || code == KEY_LEFT {
        Some(Direction::LEFT)
    } else if code == KEY_S || code == KEY_DOWN {
        Some(Direction::BOTTOM)
    } else if code == KEY_D || code == KEY_RIGHT {
        Some(Direction::RIGHT)
    } else {
        None
    }
}

/// The key confirms a choice: return or the keypad's enter.
pub open spec fn is_confirm_spec(code: i32) -> bool {
    code == KEY_ENTER || code == KEY_RETURN
}

#[verifier::when_used_as_spec(is_confirm_spec)]
pub fn is_confirm(code: i32) -> (b: bool)
    ensures
        b == is_confirm_spec(code),
{
    code == KEY_ENTER || code == KEY_RETURN
}

/// The code is that of an ASCII digit or letter.
pub open spec fn is_alphanumeric_spec(code: i32) -> bool {
    (48 <= code <= 57) || (65 <= code <= 90) || (97 <= code <= 122)
}

#[verifier::when_used_as_spec(is_alphanumeric_spec)]
pub fn is_alphanumeric(code: i32) -> (b: bool)
    ensures
        b == is_alphanumeric_spec(code),
{
    (code >= 48 && code <= 57) || (code >= 65 && code <= 90) || (code >= 97 && code <= 122)
}

} // verus!
