//! The `Attribute` type and the attribute constants.
//!
//! The constants here are meaningful for `OutputMode::Normal` only; the
//! other output modes reinterpret the same numeric range as palette indices.

use vstd::prelude::*;

verus! {

/// Determines the appearance of a character cell.
/// Each cell has a foreground attribute and a background attribute.
pub type Attribute = u16;

pub const DEFAULT: Attribute = 0x00;
pub const BLACK: Attribute = 0x01;
pub const RED: Attribute = 0x02;
pub const GREEN: Attribute = 0x03;
pub const YELLOW: Attribute = 0x04;
pub const BLUE: Attribute = 0x05;
pub const MAGENTA: Attribute = 0x06;
pub const CYAN: Attribute = 0x07;
pub const WHITE: Attribute = 0x08;

/// Use a lighter variation of one of the standard colors.
pub const BOLD: Attribute = 0x0100;
/// Put an underline under the displayed character if the terminal supports it.
pub const UNDERLINE: Attribute = 0x0200;
/// Swap the foreground and background colors.
pub const REVERSE: Attribute = 0x0400;

} // verus!
