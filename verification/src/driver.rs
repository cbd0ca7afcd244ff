//! The raw interface shared with the terminal driver.
//!
//! The driver reports events and accepts cells through plain C-style records
//! and small integer codes. This module fixes those records and codes as
//! plain Rust values so that the rest of the crate can decode and validate
//! them under contracts. Nothing here performs I/O.

use vstd::prelude::*;

verus! {

// Result codes of the driver's initialization call. Zero is success; the
// three named negative codes are the driver's fixed failure set, and any
// other value is an unknown initialization failure.
pub const TB_EUNSUPPORTED_TERMINAL: i32 = -1;
pub const TB_EFAILED_TO_OPEN_TTY: i32 = -2;
pub const TB_EPIPE_TRAP_ERROR: i32 = -3;

// Kind tags of the driver's event record.
pub const TB_EVENT_KEY: u8 = 1;
pub const TB_EVENT_RESIZE: u8 = 2;
pub const TB_EVENT_MOUSE: u8 = 3;

// Modifier bits of a key event.
pub const TB_MOD_ALT: u8 = 0x01;

// Input mode codes. `TB_INPUT_CURRENT` asks the driver for the current mode
// without changing it; the mouse flag is orthogonal to the Esc/Alt choice.
pub const TB_INPUT_CURRENT: i32 = 0;
pub const TB_INPUT_ESC: i32 = 1;
pub const TB_INPUT_ALT: i32 = 2;
pub const TB_INPUT_MOUSE: i32 = 4;

// Output mode codes.
pub const TB_OUTPUT_CURRENT: i32 = 0;
pub const TB_OUTPUT_NORMAL: i32 = 1;
pub const TB_OUTPUT_256: i32 = 2;
pub const TB_OUTPUT_216: i32 = 3;
pub const TB_OUTPUT_GRAYSCALE: i32 = 4;

// Key codes that a mouse-kind event reports in its key field.
pub const TB_KEY_MOUSE_LEFT: u16 = 0xffff - 22;
pub const TB_KEY_MOUSE_RIGHT: u16 = 0xffff - 23;
pub const TB_KEY_MOUSE_MIDDLE: u16 = 0xffff - 24;
pub const TB_KEY_MOUSE_RELEASE: u16 = 0xffff - 25;
pub const TB_KEY_MOUSE_WHEEL_UP: u16 = 0xffff - 26;
pub const TB_KEY_MOUSE_WHEEL_DOWN: u16 = 0xffff - 27;

// The cursor position the driver treats as "hidden".
pub const TB_HIDE_CURSOR: i32 = -1;

/// One cell as the driver stores it: a raw 32-bit code point (the driver
/// cannot promise a valid Unicode scalar) and the two attribute codes.
#[allow(non_camel_case_types)]
#[derive(Clone, Copy, Debug, PartialEq, Eq, Structural)]
pub struct tb_cell {
    pub ch: u32,
    pub fg: u16,
    pub bg: u16,
}

/// One event record as the driver reports it: a kind tag and payload fields.
/// The driver fills only the fields that belong to the reported kind; the
/// others may hold anything, so a decoder must not read them.
#[allow(non_camel_case_types)]
#[derive(Clone, Copy, Debug, PartialEq, Eq, Structural)]
pub struct tb_event {
    pub kind: u8,
    pub mods: u8,
    pub key: u16,
    pub ch: u32,
    pub w: i32,
    pub h: i32,
    pub x: i32,
    pub y: i32,
}

impl Default for tb_event {
    /// A zeroed record; the zero kind tag matches no event kind.
    fn default() -> (r: tb_event)
        ensures
            r.kind == 0 && r.mods == 0 && r.key == 0 && r.ch == 0,
            r.w == 0 && r.h == 0 && r.x == 0 && r.y == 0,
    {
        tb_event { kind: 0, mods: 0, key: 0, ch: 0, w: 0, h: 0, x: 0, y: 0 }
    }
}

} // verus!
