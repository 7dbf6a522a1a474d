//! Decoding the two input signals the zoom handler consumes: the trigger
//! key's state and the mouse wheel's movement.

use vstd::prelude::*;

verus! {

/// Window message of a vertical mouse-wheel movement.
pub const WM_MOUSEWHEEL: u32 = 0x020A;

/// Bit of an asynchronous key state that is set while the key is down.
pub const KEY_DOWN_BIT: i16 = -0x8000;

/// Whether a key state reports the key as held down: its high-order bit,
/// which is the sign bit, is set.
pub fn key_is_down(state: i16) -> (r: bool)
    ensures
        r == (state < 0),
{
    let bit = KEY_DOWN_BIT;
    assert((state & bit != 0) == (state < 0)) by (bit_vector)
        requires
            bit == -0x8000i16,
    ;
    state & bit != 0
}

/// The signed wheel delta held in the high word of a low-level mouse
/// event's data.
pub open spec fn wheel_delta_of(mouse_data: u32) -> int {
    let high = mouse_data as int / 0x1_0000;
    if high >= 0x8000 {
        high - 0x1_0000
    } else {
        high
    }
}

/// The wheel delta a low-level mouse event carries: present only for a
/// wheel message that the hook is allowed to process (`code >= 0`).
pub fn wheel_delta(code: i32, message: u32, mouse_data: u32) -> (r: Option<i32>)
    ensures
        r == (if code >= 0 && message == WM_MOUSEWHEEL {
            Some(wheel_delta_of(mouse_data) as i32)
        } else {
            None
        }),
{
    if code >= 0 && message == WM_MOUSEWHEEL {
        let high: u32 = mouse_data / 0x1_0000;
        if high >= 0x8000 {
            Some(high as i32 - 0x1_0000)
        } else {
            Some(high as i32)
        }
    } else {
        None
    }
}

} // verus!
