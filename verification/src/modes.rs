//! The codec for the small integer codes exchanged with the driver: input
//! modes, output modes and initialization failures.
//!
//! Encoding is total; decoding is partial and fails exactly outside the known
//! code set. The input-mode decode masks the reported word down to the mode
//! bits first, so orthogonal flags (such as the mouse flag) never disturb it.

use vstd::prelude::*;

use crate::driver::TB_EFAILED_TO_OPEN_TTY;
use crate::driver::TB_EPIPE_TRAP_ERROR;
use crate::driver::TB_EUNSUPPORTED_TERMINAL;
use crate::driver::TB_INPUT_ALT;
use crate::driver::TB_INPUT_ESC;
use crate::driver::TB_OUTPUT_216;
use crate::driver::TB_OUTPUT_256;
use crate::driver::TB_OUTPUT_GRAYSCALE;
use crate::driver::TB_OUTPUT_NORMAL;

verus! {

/// The bits of the driver's input-mode word that select how escape sequences
/// are interpreted. The remaining bits carry orthogonal flags, such as the
/// mouse-reporting flag, and are not part of the mode proper.
pub const INPUT_MODE_MASK: i32 = 3;

/// How the driver interprets an ESC sequence in the input buffer.
#[derive(Clone, Copy, Debug, Hash, PartialEq, Eq, Structural)]
pub enum InputMode {
    /// An ESC sequence is reported as the escape key itself.
    Esc,
    /// An ESC sequence marks the following key with the alt modifier.
    Alt,
}

impl InputMode {
    /// The driver code for this mode.
    pub open spec fn spec_to_c_int(self) -> i32 {
        match self {
            InputMode::Esc => TB_INPUT_ESC,
            InputMode::Alt => TB_INPUT_ALT,
        }
    }

    /// The mode selected by a driver word, if its mode bits are recognized.
    pub open spec fn spec_from_c_int(mode: i32) -> Option<InputMode> {
        if mode & INPUT_MODE_MASK == TB_INPUT_ESC {
            Some(InputMode::Esc)
        } else if mode & INPUT_MODE_MASK == TB_INPUT_ALT {
            Some(InputMode::Alt)
        } else {
            None
        }
    }

    /// Decodes a driver word, masking it down to the mode bits first.
    pub fn from_c_int(mode: i32) -> (r: Option<InputMode>)
        ensures
            r == InputMode::spec_from_c_int(mode),
    {
        let bits = mode & INPUT_MODE_MASK;
        if bits == TB_INPUT_ESC {
            Some(InputMode::Esc)
        } else if bits == TB_INPUT_ALT {
            Some(InputMode::Alt)
        } else {
            None
        }
    }

    /// Encodes this mode as its driver code.
    pub fn to_c_int(self) -> (r: i32)
        ensures
            r == self.spec_to_c_int(),
    {
        match self {
            InputMode::Esc => TB_INPUT_ESC,
            InputMode::Alt => TB_INPUT_ALT,
        }
    }
}

/// Decoding an encoded input mode gives the mode back: encode is total and
/// decode recognizes every encoded value.
pub proof fn lemma_input_mode_round_trip(m: InputMode)
    ensures
        InputMode::spec_from_c_int(m.spec_to_c_int()) == Some(m),
{
    assert(1i32 & 3i32 == 1i32) by (bit_vector);
    assert(2i32 & 3i32 == 2i32) by (bit_vector);
}

/// The input-mode decode reads only the mode bits: any word decodes exactly
/// as its masked value does, so flag bits never change the outcome.
pub proof fn lemma_input_mode_decode_masks(mode: i32)
    ensures
        InputMode::spec_from_c_int(mode) == InputMode::spec_from_c_int(mode & INPUT_MODE_MASK),
{
    assert((mode & 3i32) & 3i32 == mode & 3i32) by (bit_vector);
}

/// How the driver interprets the 16-bit cell attribute codes.
#[derive(Clone, Copy, Debug, Hash, PartialEq, Eq, Structural)]
pub enum OutputMode {
    /// The eight named colors with style bits layered on top.
    Normal,
    /// A 256-entry palette: the 8 base colors, their bold variants,
    /// 216 additional colors and 24 shades of gray.
    Color256,
    /// Only the 216 additional colors of the 256-entry palette.
    Color216,
    /// Only the 24 shades of gray of the 256-entry palette.
    Grayscale,
}

impl OutputMode {
    /// The driver code for this mode.
    pub open spec fn spec_to_c_int(self) -> i32 {
        match self {
            OutputMode::Normal => TB_OUTPUT_NORMAL,
            OutputMode::Color256 => TB_OUTPUT_256,
            OutputMode::Color216 => TB_OUTPUT_216,
            OutputMode::Grayscale => TB_OUTPUT_GRAYSCALE,
        }
    }

    /// The mode selected by a driver code, if it is one of the four known.
    pub open spec fn spec_from_c_int(mode: i32) -> Option<OutputMode> {
        if mode == TB_OUTPUT_NORMAL {
            Some(OutputMode::Normal)
        } else if mode == TB_OUTPUT_256 {
            Some(OutputMode::Color256)
        } else if mode == TB_OUTPUT_216 {
            Some(OutputMode::Color216)
        } else if mode == TB_OUTPUT_GRAYSCALE {
            Some(OutputMode::Grayscale)
        } else {
            None
        }
    }

    /// Decodes a driver code against the four known output modes.
    pub fn from_c_int(mode: i32) -> (r: Option<OutputMode>)
        ensures
            r == OutputMode::spec_from_c_int(mode),
    {
        if mode == TB_OUTPUT_NORMAL {
            Some(OutputMode::Normal)
        } else if mode == TB_OUTPUT_256 {
            Some(OutputMode::Color256)
        } else if mode == TB_OUTPUT_216 {
            Some(OutputMode::Color216)
        } else if mode == TB_OUTPUT_GRAYSCALE {
            Some(OutputMode::Grayscale)
        } else {
            None
        }
    }

    /// Encodes this mode as its driver code.
    pub fn to_c_int(self) -> (r: i32)
        ensures
            r == self.spec_to_c_int(),
    {
        match self {
            OutputMode::Normal => TB_OUTPUT_NORMAL,
            OutputMode::Color256 => TB_OUTPUT_256,
            OutputMode::Color216 => TB_OUTPUT_216,
            OutputMode::Grayscale => TB_OUTPUT_GRAYSCALE,
        }
    }
}

/// Decoding an encoded output mode gives the mode back.
pub proof fn lemma_output_mode_round_trip(m: OutputMode)
    ensures
        OutputMode::spec_from_c_int(m.spec_to_c_int()) == Some(m),
{
}

/// Why opening a session failed.
#[derive(Clone, Copy, Debug, Hash, PartialEq, Eq, Structural)]
pub enum InitError {
    /// Another session already holds the terminal.
    Locked,
    /// The driver does not support this terminal.
    UnsupportedTerminal,
    /// The driver could not open the terminal device.
    FailedToOpenTty,
    /// The driver could not install its signal pipe.
    PipeTrapError,
    /// The driver reported a failure code outside its fixed set.
    Unknown(i32),
}

impl InitError {
    /// The failure named by one of the driver's fixed initialization codes.
    pub open spec fn spec_from_raw(raw: i32) -> Option<InitError> {
        if raw == TB_EUNSUPPORTED_TERMINAL {
            Some(InitError::UnsupportedTerminal)
        } else if raw == TB_EFAILED_TO_OPEN_TTY {
            Some(InitError::FailedToOpenTty)
        } else if raw == TB_EPIPE_TRAP_ERROR {
            Some(InitError::PipeTrapError)
        } else {
            None
        }
    }

    /// Decodes a driver initialization code against the fixed failure set.
    pub fn from_raw(raw: i32) -> (r: Option<InitError>)
        ensures
            r == InitError::spec_from_raw(raw),
    {
        if raw == TB_EUNSUPPORTED_TERMINAL {
            Some(InitError::UnsupportedTerminal)
        } else if raw == TB_EFAILED_TO_OPEN_TTY {
            Some(InitError::FailedToOpenTty)
        } else if raw == TB_EPIPE_TRAP_ERROR {
            Some(InitError::PipeTrapError)
        } else {
            None
        }
    }

    /// The message for this failure.
    pub open spec fn spec_as_str(self) -> Seq<char> {
        match self {
            InitError::Locked => "locked"@,
            InitError::UnsupportedTerminal => "unsupported terminal"@,
            InitError::FailedToOpenTty => "failed to open tty"@,
            InitError::PipeTrapError => "pipe trap error"@,
            InitError::Unknown(_) => "unknown initialization failure"@,
        }
    }

    /// A short description of this failure.
    pub fn as_str(self) -> (r: &'static str)
        ensures
            r@ == self.spec_as_str(),
    {
        match self {
            InitError::Locked => "locked",
            InitError::UnsupportedTerminal => "unsupported terminal",
            InitError::FailedToOpenTty => "failed to open tty",
            InitError::PipeTrapError => "pipe trap error",
            InitError::Unknown(_) => "unknown initialization failure",
        }
    }
}

} // verus!
