//! The `Key` type and the key constants.

use vstd::prelude::*;

verus! {

/// Represents a key pressed by the user.
pub type Key = u16;

pub const KEY_CTRL_TILDE: Key = 0x00;
pub const KEY_CTRL_2: Key = 0x00;
pub const KEY_CTRL_A: Key = 0x01;
pub const KEY_CTRL_B: Key = 0x02;
pub const KEY_CTRL_C: Key = 0x03;
pub const KEY_CTRL_D: Key = 0x04;
pub const KEY_CTRL_E: Key = 0x05;
pub const KEY_CTRL_F: Key = 0x06;
pub const KEY_CTRL_G: Key = 0x07;
pub const KEY_BACKSPACE: Key = 0x08;
pub const KEY_CTRL_H: Key = 0x08;
pub const KEY_TAB: Key = 0x09;
pub const KEY_CTRL_I: Key = 0x09;
pub const KEY_CTRL_J: Key = 0x0a;
pub const KEY_CTRL_K: Key = 0x0b;
pub const KEY_CTRL_L: Key = 0x0c;
pub const KEY_ENTER: Key = 0x0d;
pub const KEY_CTRL_M: Key = 0x0d;
pub const KEY_CTRL_N: Key = 0x0e;
pub const KEY_CTRL_O: Key = 0x0f;
pub const KEY_CTRL_P: Key = 0x10;
pub const KEY_CTRL_Q: Key = 0x11;
pub const KEY_CTRL_R: Key = 0x12;
pub const KEY_CTRL_S: Key = 0x13;
pub const KEY_CTRL_T: Key = 0x14;
pub const KEY_CTRL_U: Key = 0x15;
pub const KEY_CTRL_V: Key = 0x16;
pub const KEY_CTRL_W: Key = 0x17;
pub const KEY_CTRL_X: Key = 0x18;
pub const KEY_CTRL_Y: Key = 0x19;
pub const KEY_CTRL_Z: Key = 0x1a;
pub const KEY_ESC: Key = 0x1b;
pub const KEY_CTRL_LSQ_BRACKET: Key = 0x1b;
pub const KEY_CTRL_3: Key = 0x1b;
pub const KEY_CTRL_4: Key = 0x1c;
pub const KEY_CTRL_BACKSLASH: Key = 0x1c;
pub const KEY_CTRL_5: Key = 0x1d;
pub const KEY_CTRL_RSQ_BRACKET: Key = 0x1d;
pub const KEY_CTRL_6: Key = 0x1e;
pub const KEY_CTRL_7: Key = 0x1f;
pub const KEY_CTRL_SLASH: Key = 0x1f;
pub const KEY_CTRL_UNDERSCORE: Key = 0x1f;
pub const KEY_SPACE: Key = 0x20;
pub const KEY_BACKSPACE2: Key = 0x7f;
pub const KEY_CTRL_8: Key = 0x7f;

pub const KEY_F1: Key = 0xffff - 0;
pub const KEY_F2: Key = 0xffff - 1;
pub const KEY_F3: Key = 0xffff - 2;
pub const KEY_F4: Key = 0xffff - 3;
pub const KEY_F5: Key = 0xffff - 4;
pub const KEY_F6: Key = 0xffff - 5;
pub const KEY_F7: Key = 0xffff - 6;
pub const KEY_F8: Key = 0xffff - 7;
pub const KEY_F9: Key = 0xffff - 8;
pub const KEY_F10: Key = 0xffff - 9;
pub const KEY_F11: Key = 0xffff - 10;
pub const KEY_F12: Key = 0xffff - 11;
pub const KEY_INSERT: Key = 0xffff - 12;
pub const KEY_DELETE: Key = 0xffff - 13;
pub const KEY_HOME: Key = 0xffff - 14;
pub const KEY_END: Key = 0xffff - 15;
pub const KEY_PGUP: Key = 0xffff - 16;
pub const KEY_PGDN: Key = 0xffff - 17;
pub const KEY_ARROW_UP: Key = 0xffff - 18;
pub const KEY_ARROW_DOWN: Key = 0xffff - 19;
pub const KEY_ARROW_LEFT: Key = 0xffff - 20;
pub const KEY_ARROW_RIGHT: Key = 0xffff - 21;

} // verus!
