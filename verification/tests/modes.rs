//! Tests for the input/output mode codec and the initialization failures.

use termbox::InitError;
use termbox::InputMode;
use termbox::OutputMode;

#[test]
fn input_mode_round_trip() {
    for m in [InputMode::Esc, InputMode::Alt] {
        assert_eq!(InputMode::from_c_int(m.to_c_int()), Some(m));
    }
}

#[test]
fn input_mode_encoding() {
    assert_eq!(InputMode::Esc.to_c_int(), 1);
    assert_eq!(InputMode::Alt.to_c_int(), 2);
}

#[test]
fn input_mode_decode_known_codes() {
    assert_eq!(InputMode::from_c_int(1), Some(InputMode::Esc));
    assert_eq!(InputMode::from_c_int(2), Some(InputMode::Alt));
}

#[test]
fn input_mode_decode_masks_flags() {
    // The mouse flag (bit 4) must not disturb the decode.
    assert_eq!(InputMode::from_c_int(1 | 4), Some(InputMode::Esc));
    assert_eq!(InputMode::from_c_int(2 | 4), Some(InputMode::Alt));
}

#[test]
fn input_mode_decode_unknown_codes() {
    assert_eq!(InputMode::from_c_int(0), None);
    assert_eq!(InputMode::from_c_int(3), None);
    assert_eq!(InputMode::from_c_int(4), None);
    assert_eq!(InputMode::from_c_int(7), None);
}

#[test]
fn output_mode_round_trip() {
    for m in [
        OutputMode::Normal,
        OutputMode::Color256,
        OutputMode::Color216,
        OutputMode::Grayscale,
    ] {
        assert_eq!(OutputMode::from_c_int(m.to_c_int()), Some(m));
    }
}

#[test]
fn output_mode_encoding() {
    assert_eq!(OutputMode::Normal.to_c_int(), 1);
    assert_eq!(OutputMode::Color256.to_c_int(), 2);
    assert_eq!(OutputMode::Color216.to_c_int(), 3);
    assert_eq!(OutputMode::Grayscale.to_c_int(), 4);
}

#[test]
fn output_mode_decode_unknown_codes() {
    assert_eq!(OutputMode::from_c_int(0), None);
    assert_eq!(OutputMode::from_c_int(5), None);
    assert_eq!(OutputMode::from_c_int(-1), None);
}

#[test]
fn init_error_decode() {
    assert_eq!(InitError::from_raw(-1), Some(InitError::UnsupportedTerminal));
    assert_eq!(InitError::from_raw(-2), Some(InitError::FailedToOpenTty));
    assert_eq!(InitError::from_raw(-3), Some(InitError::PipeTrapError));
    assert_eq!(InitError::from_raw(0), None);
    assert_eq!(InitError::from_raw(-4), None);
    assert_eq!(InitError::from_raw(1), None);
}

#[test]
fn init_error_messages() {
    assert_eq!(InitError::Locked.as_str(), "locked");
    assert_eq!(InitError::UnsupportedTerminal.as_str(), "unsupported terminal");
    assert_eq!(InitError::FailedToOpenTty.as_str(), "failed to open tty");
    assert_eq!(InitError::PipeTrapError.as_str(), "pipe trap error");
    assert_eq!(InitError::Unknown(-9).as_str(), "unknown initialization failure");
}
