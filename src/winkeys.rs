//! Windows keyboard facts that need no system call: extended scan codes,
//! key messages, and the modifiers of a keyboard state array.
use vstd::array::*;
use vstd::prelude::*;

use crate::types::{
    Modifiers, ALT_GR_BIT, LEFT_ALT_BIT, LEFT_CTRL_BIT, LEFT_SHIFT_BIT, META_BIT, RIGHT_ALT_BIT,
    RIGHT_CTRL_BIT, RIGHT_SHIFT_BIT, SHIFT_BIT,
};

verus! {

/// The message of a key going down.
pub const WM_KEYDOWN: u32 = 0x0100;
/// The message of a key going down with Alt.
pub const WM_SYSKEYDOWN: u32 = 0x0104;
/// The flag of an extended key in a low-level keyboard hook record.
pub const LLKHF_EXTENDED: u32 = 0x01;
/// Virtual key of Shift.
pub const VK_SHIFT: usize = 0x10;
/// Virtual key of Control.
pub const VK_CONTROL: usize = 0x11;
/// Virtual key of Alt.
pub const VK_MENU: usize = 0x12;
/// Virtual key of the left Windows key.
pub const VK_LWIN: usize = 0x5B;
/// Virtual key of the right Windows key.
pub const VK_RWIN: usize = 0x5C;
/// Virtual key of the left Shift key.
pub const VK_LSHIFT: usize = 0xA0;
/// Virtual key of the right Shift key.
pub const VK_RSHIFT: usize = 0xA1;
/// Virtual key of the left Control key.
pub const VK_LCONTROL: usize = 0xA2;
/// Virtual key of the right Control key.
pub const VK_RCONTROL: usize = 0xA3;
/// Virtual key of the left Alt key.
pub const VK_LMENU: usize = 0xA4;
/// Virtual key of the right Alt key.
pub const VK_RMENU: usize = 0xA5;

/// The scan code of a hooked key with the extended-key prefix `0xE0` put in
/// the high byte when the key is extended. The right Shift key (`0x36`) and
/// Num Lock (`0x45`) keep their plain codes.
pub open spec fn spec_scan_with_extension(scan_code: u32, flags: u32) -> u32 {
    if scan_code == 0x36 || scan_code == 0x45 {
        scan_code
    } else if flags & LLKHF_EXTENDED != 0 {
        0xE000u32 | scan_code
    } else {
        scan_code
    }
}

/// The scan code of a hooked key, extended keys prefixed with `0xE0`.
pub fn scan_with_extension(scan_code: u32, flags: u32) -> (r: u32)
    ensures
        r == spec_scan_with_extension(scan_code, flags),
{
    if scan_code == 0x36 || scan_code == 0x45 {
        scan_code
    } else if flags & LLKHF_EXTENDED != 0 {
        0xE000u32 | scan_code
    } else {
        scan_code
    }
}

/// Whether a keyboard message reports a key going down.
pub fn is_press_message(message: u32) -> (r: bool)
    ensures
        r == (message == WM_KEYDOWN || message == WM_SYSKEYDOWN),
{
    message == WM_KEYDOWN || message == WM_SYSKEYDOWN
}

/// Whether the key-state byte marks the key as down.
pub open spec fn is_down(b: u8) -> bool {
    b & 0x80 != 0
}

/// The modifier bit `bit` when the key-state byte marks its key as down.
pub open spec fn bit_if_down(b: u8, bit: u16) -> u16 {
    if is_down(b) {
        bit
    } else {
        0
    }
}

/// The modifiers of a keyboard state array: the side-specific Shift,
/// Control and Alt bits of the keys held, and Meta for either Windows key.
pub open spec fn spec_key_state_modifiers(states: Seq<u8>) -> Modifiers {
    Modifiers {
        bits: bit_if_down(states[VK_LSHIFT as int], LEFT_SHIFT_BIT) | bit_if_down(
            states[VK_RSHIFT as int],
            RIGHT_SHIFT_BIT,
        ) | bit_if_down(states[VK_LCONTROL as int], LEFT_CTRL_BIT) | bit_if_down(
            states[VK_RCONTROL as int],
            RIGHT_CTRL_BIT,
        ) | bit_if_down(states[VK_LMENU as int], LEFT_ALT_BIT) | bit_if_down(
            states[VK_RMENU as int],
            RIGHT_ALT_BIT,
        ) | bit_if_down(states[VK_LWIN as int], META_BIT) | bit_if_down(states[VK_RWIN as int], META_BIT),
    }
}

fn down_bit(b: u8, bit: u16) -> (r: u16)
    ensures
        r == bit_if_down(b, bit),
{
    if b & 0x80 != 0 {
        bit
    } else {
        0
    }
}

/// The modifiers held according to a keyboard state array.
pub fn get_current_modifiers(states: &[u8; 256]) -> (r: Modifiers)
    ensures
        r == spec_key_state_modifiers(states@),
{
    Modifiers {
        bits: down_bit(states[VK_LSHIFT], LEFT_SHIFT_BIT) | down_bit(states[VK_RSHIFT], RIGHT_SHIFT_BIT)
            | down_bit(states[VK_LCONTROL], LEFT_CTRL_BIT) | down_bit(states[VK_RCONTROL], RIGHT_CTRL_BIT)
            | down_bit(states[VK_LMENU], LEFT_ALT_BIT) | down_bit(states[VK_RMENU], RIGHT_ALT_BIT)
            | down_bit(states[VK_LWIN], META_BIT) | down_bit(states[VK_RWIN], META_BIT),
    }
}

/// Mark in a keyboard state array the keys that produce `mods`: Shift for
/// SHIFT, Control and Alt for ALT_GR.
pub fn apply_mods(mods: Modifiers, state: &mut [u8; 256])
    ensures
        final(state)@ == {
            let s1 = if mods.has(Modifiers { bits: SHIFT_BIT }) {
                old(state)@.update(VK_SHIFT as int, 0x80u8)
            } else {
                old(state)@
            };
            if mods.has(Modifiers { bits: ALT_GR_BIT }) {
                s1.update(VK_CONTROL as int, 0x80u8).update(VK_MENU as int, 0x80u8)
            } else {
                s1
            }
        },
{
    if mods.contains(Modifiers { bits: SHIFT_BIT }) {
        state[VK_SHIFT] = 0x80;
    }
    if mods.contains(Modifiers { bits: ALT_GR_BIT }) {
        state[VK_CONTROL] = 0x80;
        state[VK_MENU] = 0x80;
    }
}

} // verus!
