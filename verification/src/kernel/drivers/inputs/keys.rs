//! Common keyboard key codes.

use vstd::prelude::*;

verus! {

pub const KEY_SPACE: usize = 32;
pub const KEY_APOSTROPHE: usize = 39;
pub const KEY_COMMA: usize = 44;
pub const KEY_MINUS: usize = 45;
pub const KEY_PERIOD: usize = 46;
pub const KEY_SLASH: usize = 47;

pub const KEY_0: usize = 48;
pub const KEY_1: usize = 49;
pub const KEY_2: usize = 50;
pub const KEY_3: usize = 51;
pub const KEY_4: usize = 52;
pub const KEY_5: usize = 53;
pub const KEY_6: usize = 54;
pub const KEY_7: usize = 55;
pub const KEY_8: usize = 56;
pub const KEY_9: usize = 57;

pub const KEY_SEMICOLON: usize = 59;
pub const KEY_EQUAL: usize = 61;

pub const KEY_A: usize = 65;
pub const KEY_B: usize = 66;
pub const KEY_C: usize = 67;
pub const KEY_D: usize = 68;
pub const KEY_E: usize = 69;
pub const KEY_F: usize = 70;
pub const KEY_G: usize = 71;
pub const KEY_H: usize = 72;
pub const KEY_I: usize = 73;
pub const KEY_J: usize = 74;
pub const KEY_K: usize = 75;
pub const KEY_L: usize = 76;
pub const KEY_M: usize = 77;
pub const KEY_N: usize = 78;
pub const KEY_O: usize = 79;
pub const KEY_P: usize = 80;
pub const KEY_Q: usize = 81;
pub const KEY_R: usize = 82;
pub const KEY_S: usize = 83;
pub const KEY_T: usize = 84;
pub const KEY_U: usize = 85;
pub const KEY_V: usize = 86;
pub const KEY_W: usize = 87;
pub const KEY_X: usize = 88;
pub const KEY_Y: usize = 89;
pub const KEY_Z: usize = 90;

pub const KEY_ESCAPE: usize = 256;
pub const KEY_ENTER: usize = 257;
pub const KEY_TAB: usize = 258;
pub const KEY_BACKSPACE: usize = 259;
pub const KEY_INSERT: usize = 260;
pub const KEY_DELETE: usize = 261;
pub const KEY_RIGHT: usize = 262;
pub const KEY_LEFT: usize = 263;
pub const KEY_DOWN: usize = 264;
pub const KEY_UP: usize = 265;
pub const KEY_PAGE_UP: usize = 266;
pub const KEY_PAGE_DOWN: usize = 267;
pub const KEY_HOME: usize = 268;
pub const KEY_END: usize = 269;

pub const KEY_F1: usize = 290;
pub const KEY_F2: usize = 291;
pub const KEY_F3: usize = 292;
pub const KEY_F4: usize = 293;
pub const KEY_F5: usize = 294;
pub const KEY_F6: usize = 295;
pub const KEY_F7: usize = 296;
pub const KEY_F8: usize = 297;
pub const KEY_F9: usize = 298;
pub const KEY_F10: usize = 299;
pub const KEY_F11: usize = 300;
pub const KEY_F12: usize = 301;

pub const KEY_LEFT_SHIFT: usize = 340;
pub const KEY_LEFT_CONTROL: usize = 341;
pub const KEY_LEFT_ALT: usize = 342;
pub const KEY_RIGHT_SHIFT: usize = 344;
pub const KEY_RIGHT_CONTROL: usize = 345;
pub const KEY_RIGHT_ALT: usize = 346;

} // verus!
