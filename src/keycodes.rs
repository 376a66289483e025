//! Android key codes, as the host reports them in `KeyEvent.getKeyCode()`.
use vstd::prelude::*;

verus! {

pub const KEYCODE_HOME: i32 = 3;
pub const KEYCODE_0: i32 = 7;
pub const KEYCODE_1: i32 = 8;
pub const KEYCODE_2: i32 = 9;
pub const KEYCODE_3: i32 = 10;
pub const KEYCODE_4: i32 = 11;
pub const KEYCODE_5: i32 = 12;
pub const KEYCODE_6: i32 = 13;
pub const KEYCODE_7: i32 = 14;
pub const KEYCODE_8: i32 = 15;
pub const KEYCODE_9: i32 = 16;
pub const KEYCODE_DPAD_UP: i32 = 19;
pub const KEYCODE_DPAD_DOWN: i32 = 20;
pub const KEYCODE_DPAD_LEFT: i32 = 21;
pub const KEYCODE_DPAD_RIGHT: i32 = 22;
pub const KEYCODE_A: i32 = 29;
pub const KEYCODE_B: i32 = 30;
pub const KEYCODE_C: i32 = 31;
pub const KEYCODE_D: i32 = 32;
pub const KEYCODE_E: i32 = 33;
pub const KEYCODE_F: i32 = 34;
pub const KEYCODE_G: i32 = 35;
pub const KEYCODE_H: i32 = 36;
pub const KEYCODE_I: i32 = 37;
pub const KEYCODE_J: i32 = 38;
pub const KEYCODE_K: i32 = 39;
pub const KEYCODE_L: i32 = 40;
pub const KEYCODE_M: i32 = 41;
pub const KEYCODE_N: i32 = 42;
pub const KEYCODE_O: i32 = 43;
pub const KEYCODE_P: i32 = 44;
pub const KEYCODE_Q: i32 = 45;
pub const KEYCODE_R: i32 = 46;
pub const KEYCODE_S: i32 = 47;
pub const KEYCODE_T: i32 = 48;
pub const KEYCODE_U: i32 = 49;
pub const KEYCODE_V: i32 = 50;
pub const KEYCODE_W: i32 = 51;
pub const KEYCODE_X: i32 = 52;
pub const KEYCODE_Y: i32 = 53;
pub const KEYCODE_Z: i32 = 54;
pub const KEYCODE_COMMA: i32 = 55;
pub const KEYCODE_PERIOD: i32 = 56;
pub const KEYCODE_ALT_LEFT: i32 = 57;
pub const KEYCODE_ALT_RIGHT: i32 = 58;
pub const KEYCODE_SHIFT_LEFT: i32 = 59;
pub const KEYCODE_SHIFT_RIGHT: i32 = 60;
pub const KEYCODE_TAB: i32 = 61;
pub const KEYCODE_SPACE: i32 = 62;
pub const KEYCODE_ENTER: i32 = 66;
pub const KEYCODE_DEL: i32 = 67;
pub const KEYCODE_GRAVE: i32 = 68;
pub const KEYCODE_MINUS: i32 = 69;
pub const KEYCODE_EQUALS: i32 = 70;
pub const KEYCODE_LEFT_BRACKET: i32 = 71;
pub const KEYCODE_RIGHT_BRACKET: i32 = 72;
pub const KEYCODE_BACKSLASH: i32 = 73;
pub const KEYCODE_SEMICOLON: i32 = 74;
pub const KEYCODE_APOSTROPHE: i32 = 75;
pub const KEYCODE_SLASH: i32 = 76;
pub const KEYCODE_PAGE_UP: i32 = 92;
pub const KEYCODE_PAGE_DOWN: i32 = 93;
pub const KEYCODE_BUTTON_A: i32 = 96;
pub const KEYCODE_BUTTON_B: i32 = 97;
pub const KEYCODE_BUTTON_X: i32 = 99;
pub const KEYCODE_BUTTON_Y: i32 = 100;
pub const KEYCODE_BUTTON_L1: i32 = 102;
pub const KEYCODE_BUTTON_R1: i32 = 103;
pub const KEYCODE_BUTTON_L2: i32 = 104;
pub const KEYCODE_BUTTON_R2: i32 = 105;
pub const KEYCODE_BUTTON_START: i32 = 108;
pub const KEYCODE_BUTTON_SELECT: i32 = 109;
pub const KEYCODE_ESCAPE: i32 = 111;
pub const KEYCODE_FORWARD_DEL: i32 = 112;
pub const KEYCODE_CTRL_LEFT: i32 = 113;
pub const KEYCODE_CTRL_RIGHT: i32 = 114;
pub const KEYCODE_CAPS_LOCK: i32 = 115;
pub const KEYCODE_SCROLL_LOCK: i32 = 116;
pub const KEYCODE_META_LEFT: i32 = 117;
pub const KEYCODE_META_RIGHT: i32 = 118;
pub const KEYCODE_SYSRQ: i32 = 120;
pub const KEYCODE_BREAK: i32 = 121;
pub const KEYCODE_MOVE_HOME: i32 = 122;
pub const KEYCODE_MOVE_END: i32 = 123;
pub const KEYCODE_INSERT: i32 = 124;
pub const KEYCODE_MEDIA_PLAY: i32 = 126;
pub const KEYCODE_MEDIA_PAUSE: i32 = 127;
pub const KEYCODE_F1: i32 = 131;
pub const KEYCODE_F2: i32 = 132;
pub const KEYCODE_F3: i32 = 133;
pub const KEYCODE_F4: i32 = 134;
pub const KEYCODE_F5: i32 = 135;
pub const KEYCODE_F6: i32 = 136;
pub const KEYCODE_F7: i32 = 137;
pub const KEYCODE_F8: i32 = 138;
pub const KEYCODE_F9: i32 = 139;
pub const KEYCODE_F10: i32 = 140;
pub const KEYCODE_F11: i32 = 141;
pub const KEYCODE_F12: i32 = 142;
pub const KEYCODE_NUM_LOCK: i32 = 143;
pub const KEYCODE_NUMPAD_0: i32 = 144;
pub const KEYCODE_NUMPAD_1: i32 = 145;
pub const KEYCODE_NUMPAD_2: i32 = 146;
pub const KEYCODE_NUMPAD_3: i32 = 147;
pub const KEYCODE_NUMPAD_4: i32 = 148;
pub const KEYCODE_NUMPAD_5: i32 = 149;
pub const KEYCODE_NUMPAD_6: i32 = 150;
pub const KEYCODE_NUMPAD_7: i32 = 151;
pub const KEYCODE_NUMPAD_8: i32 = 152;
pub const KEYCODE_NUMPAD_9: i32 = 153;
pub const KEYCODE_NUMPAD_DIVIDE: i32 = 154;
pub const KEYCODE_NUMPAD_MULTIPLY: i32 = 155;
pub const KEYCODE_NUMPAD_SUBTRACT: i32 = 156;
pub const KEYCODE_NUMPAD_ADD: i32 = 157;
pub const KEYCODE_NUMPAD_DOT: i32 = 158;
pub const KEYCODE_NUMPAD_COMMA: i32 = 159;
pub const KEYCODE_NUMPAD_ENTER: i32 = 160;
pub const KEYCODE_NUMPAD_EQUALS: i32 = 161;

} // verus!
