//! Virtual key codes of the keyboard, for native key presses.

use vstd::prelude::*;

verus! {

/// The virtual key codes of common keys.
#[derive(Clone, Copy, Debug, PartialEq, Eq, Default)]
pub struct NativeKeycodesData;

pub type NativeKeycodes = NativeKeycodesData;

impl NativeKeycodesData {
    pub fn new() -> (r: Self)
        ensures
            r == NativeKeycodesData,
    {
        NativeKeycodesData
    }

    pub const A: u16 = 0;

    pub const S: u16 = 1;

    pub const D: u16 = 2;

    pub const F: u16 = 3;

    pub const H: u16 = 4;

    pub const G: u16 = 5;

    pub const Z: u16 = 6;

    pub const X: u16 = 7;

    pub const C: u16 = 8;

    pub const V: u16 = 9;

    pub const B: u16 = 11;

    pub const Q: u16 = 12;

    pub const W: u16 = 13;

    pub const E: u16 = 14;

    pub const R: u16 = 15;

    pub const Y: u16 = 16;

    pub const T: u16 = 17;

    pub const DIGIT_1: u16 = 18;

    pub const DIGIT_2: u16 = 19;

    pub const DIGIT_3: u16 = 20;

    pub const DIGIT_4: u16 = 21;

    pub const DIGIT_6: u16 = 22;

    pub const DIGIT_5: u16 = 23;

    pub const EQUAL: u16 = 24;

    pub const DIGIT_9: u16 = 25;

    pub const DIGIT_7: u16 = 26;

    pub const MINUS: u16 = 27;

    pub const DIGIT_8: u16 = 28;

    pub const DIGIT_0: u16 = 29;

    pub const RIGHT_BRACKET: u16 = 30;

    pub const O: u16 = 31;

    pub const U: u16 = 32;

    pub const LEFT_BRACKET: u16 = 33;

    pub const I: u16 = 34;

    pub const P: u16 = 35;

    pub const RETURN: u16 = 36;

    pub const L: u16 = 37;

    pub const J: u16 = 38;

    pub const QUOTE: u16 = 39;

    pub const K: u16 = 40;

    pub const SEMICOLON: u16 = 41;

    pub const BACKSLASH: u16 = 42;

    pub const COMMA: u16 = 43;

    pub const SLASH: u16 = 44;

    pub const N: u16 = 45;

    pub const M: u16 = 46;

    pub const PERIOD: u16 = 47;

    pub const TAB: u16 = 48;

    pub const SPACE: u16 = 49;

    pub const GRAVE: u16 = 50;

    pub const DELETE: u16 = 51;

    pub const ESCAPE: u16 = 53;

    pub const RIGHT_COMMAND: u16 = 54;

    pub const COMMAND: u16 = 55;

    pub const SHIFT: u16 = 56;

    pub const CAPS_LOCK: u16 = 57;

    pub const OPTION: u16 = 58;

    pub const CONTROL: u16 = 59;

    pub const RIGHT_SHIFT: u16 = 60;

    pub const RIGHT_OPTION: u16 = 61;

    pub const RIGHT_CONTROL: u16 = 62;

    pub const FUNCTION: u16 = 63;

    pub const F17: u16 = 64;

    pub const KEYPAD_DECIMAL: u16 = 65;

    pub const KEYPAD_MULTIPLY: u16 = 67;

    pub const KEYPAD_PLUS: u16 = 69;

    pub const KEYPAD_CLEAR: u16 = 71;

    pub const VOLUME_UP: u16 = 72;

    pub const VOLUME_DOWN: u16 = 73;

    pub const MUTE: u16 = 74;

    pub const KEYPAD_DIVIDE: u16 = 75;

    pub const KEYPAD_ENTER: u16 = 76;

    pub const KEYPAD_MINUS: u16 = 78;

    pub const F18: u16 = 79;

    pub const F19: u16 = 80;

    pub const KEYPAD_EQUALS: u16 = 81;

    pub const KEYPAD_0: u16 = 82;

    pub const KEYPAD_1: u16 = 83;

    pub const KEYPAD_2: u16 = 84;

    pub const KEYPAD_3: u16 = 85;

    pub const KEYPAD_4: u16 = 86;

    pub const KEYPAD_5: u16 = 87;

    pub const KEYPAD_6: u16 = 88;

    pub const KEYPAD_7: u16 = 89;

    pub const F20: u16 = 90;

    pub const KEYPAD_8: u16 = 91;

    pub const KEYPAD_9: u16 = 92;

    pub const F5: u16 = 96;

    pub const F6: u16 = 97;

    pub const F7: u16 = 98;

    pub const F3: u16 = 99;

    pub const F8: u16 = 100;

    pub const F9: u16 = 101;

    pub const F11: u16 = 103;

    pub const F13: u16 = 105;

    pub const F16: u16 = 106;

    pub const F14: u16 = 107;

    pub const F10: u16 = 109;

    pub const F12: u16 = 111;

    pub const F15: u16 = 113;

    pub const HELP: u16 = 114;

    pub const HOME: u16 = 115;

    pub const PAGE_UP: u16 = 116;

    pub const FORWARD_DELETE: u16 = 117;

    pub const F4: u16 = 118;

    pub const END: u16 = 119;

    pub const F2: u16 = 120;

    pub const PAGE_DOWN: u16 = 121;

    pub const F1: u16 = 122;

    pub const LEFT_ARROW: u16 = 123;

    pub const RIGHT_ARROW: u16 = 124;

    pub const DOWN_ARROW: u16 = 125;

    pub const UP_ARROW: u16 = 126;
}

} // verus!
