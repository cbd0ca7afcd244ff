//! The typed event model and the decoder for raw driver event records.
//!
//! A raw record carries a kind tag and a bundle of payload fields, of which
//! only those belonging to the tagged kind are meaningful. Decoding
//! dispatches strictly on the tag and reads nothing else: a key record
//! validates its code point and alt bit, a resize record copies its
//! dimensions, a mouse record decodes its button, and every other tag is a
//! decode failure.

use vstd::prelude::*;

use crate::driver::TB_EVENT_KEY;
use crate::driver::TB_EVENT_MOUSE;
use crate::driver::TB_EVENT_RESIZE;
use crate::driver::TB_KEY_MOUSE_LEFT;
use crate::driver::TB_KEY_MOUSE_MIDDLE;
use crate::driver::TB_KEY_MOUSE_RELEASE;
use crate::driver::TB_KEY_MOUSE_RIGHT;
use crate::driver::TB_KEY_MOUSE_WHEEL_DOWN;
use crate::driver::TB_KEY_MOUSE_WHEEL_UP;
use crate::driver::TB_MOD_ALT;
use crate::driver::tb_event;
use crate::keys::Key;

verus! {

/// Whether a raw 32-bit value is a valid Unicode scalar value: any code
/// point up to 0x10FFFF other than the surrogate range.
pub open spec fn is_unicode_scalar(v: u32) -> bool {
    v < 0xD800 || (0xE000 <= v && v <= 0x10FFFF)
}

/// The character a raw 32-bit value decodes to: its scalar value when valid,
/// and no character otherwise.
pub open spec fn spec_char_of(v: u32) -> Option<char> {
    if is_unicode_scalar(v) {
        Some(v as char)
    } else {
        None
    }
}

/// Relies on char::from_u32: the result is Some exactly for valid Unicode
/// scalar values, and carries the value itself.
pub assume_specification[ char::from_u32 ](v: u32) -> (r: Option<char>)
    ensures
        r == spec_char_of(v),
;

/// A key pressed by the user.
#[derive(Clone, Copy, Debug, PartialEq, Eq)]
pub struct KeyEvent {
    /// Code for the key that was pressed. See the `keys` module.
    pub key: Key,
    /// The Unicode character for the key, when its raw code point is a valid
    /// scalar value.
    pub ch: Option<char>,
    /// Whether the alt modifier accompanied the key.
    pub alt: bool,
}

impl KeyEvent {
    /// The key event a raw record decodes to, when its tag is the key kind.
    pub open spec fn spec_from_raw(raw: tb_event) -> Option<KeyEvent> {
        if raw.kind == TB_EVENT_KEY {
            Some(
                KeyEvent {
                    key: raw.key,
                    ch: spec_char_of(raw.ch),
                    alt: raw.mods & TB_MOD_ALT != 0,
                },
            )
        } else {
            None
        }
    }

    /// Decodes a raw record of the key kind: the key code passes through,
    /// an invalid code point becomes "no character" rather than a failure,
    /// and the alt flag is the alt-modifier bit.
    pub fn from_raw(raw: &tb_event) -> (r: Option<KeyEvent>)
        ensures
            r == KeyEvent::spec_from_raw(*raw),
    {
        if raw.kind == TB_EVENT_KEY {
            Some(KeyEvent { key: raw.key, ch: char::from_u32(raw.ch), alt: raw.mods & TB_MOD_ALT != 0 })
        } else {
            None
        }
    }
}

/// A change of the terminal's size.
#[derive(Clone, Copy, Debug, PartialEq, Eq, Structural)]
pub struct ResizeEvent {
    pub w: i32,
    pub h: i32,
}

impl ResizeEvent {
    /// The resize event a raw record decodes to, when its tag is the resize
    /// kind.
    pub open spec fn spec_from_raw(raw: tb_event) -> Option<ResizeEvent> {
        if raw.kind == TB_EVENT_RESIZE {
            Some(ResizeEvent { w: raw.w, h: raw.h })
        } else {
            None
        }
    }

    /// Decodes a raw record of the resize kind: width and height are copied
    /// verbatim.
    pub fn from_raw(raw: &tb_event) -> (r: Option<ResizeEvent>)
        ensures
            r == ResizeEvent::spec_from_raw(*raw),
    {
        if raw.kind == TB_EVENT_RESIZE {
            Some(ResizeEvent { w: raw.w, h: raw.h })
        } else {
            None
        }
    }
}

/// A mouse button, as reported inside a mouse-kind event.
#[derive(Clone, Copy, Debug, Hash, PartialEq, Eq, Structural)]
pub enum MouseButton {
    Left,
    Right,
    Middle,
    Release,
    WheelUp,
    WheelDown,
}

impl MouseButton {
    /// The button a key code inside a mouse-kind event stands for, if it is
    /// one of the six known codes.
    pub open spec fn spec_from_raw(raw: u16) -> Option<MouseButton> {
        if raw == TB_KEY_MOUSE_LEFT {
            Some(MouseButton::Left)
        } else if raw == TB_KEY_MOUSE_RIGHT {
            Some(MouseButton::Right)
        } else if raw == TB_KEY_MOUSE_MIDDLE {
            Some(MouseButton::Middle)
        } else if raw == TB_KEY_MOUSE_RELEASE {
            Some(MouseButton::Release)
        } else if raw == TB_KEY_MOUSE_WHEEL_UP {
            Some(MouseButton::WheelUp)
        } else if raw == TB_KEY_MOUSE_WHEEL_DOWN {
            Some(MouseButton::WheelDown)
        } else {
            None
        }
    }

    /// Decodes a key code against the six known mouse-button codes; any
    /// other code is a decode failure, never silently coerced.
    pub fn from_raw(raw: u16) -> (r: Option<MouseButton>)
        ensures
            r == MouseButton::spec_from_raw(raw),
    {
        if raw == TB_KEY_MOUSE_LEFT {
            Some(MouseButton::Left)
        } else if raw == TB_KEY_MOUSE_RIGHT {
            Some(MouseButton::Right)
        } else if raw == TB_KEY_MOUSE_MIDDLE {
            Some(MouseButton::Middle)
        } else if raw == TB_KEY_MOUSE_RELEASE {
            Some(MouseButton::Release)
        } else if raw == TB_KEY_MOUSE_WHEEL_UP {
            Some(MouseButton::WheelUp)
        } else if raw == TB_KEY_MOUSE_WHEEL_DOWN {
            Some(MouseButton::WheelDown)
        } else {
            None
        }
    }
}

/// A mouse action at a cell position. Mouse events are disabled by default;
/// see `Termbox::set_mouse_enabled`.
#[derive(Clone, Copy, Debug, PartialEq, Eq, Structural)]
pub struct MouseEvent {
    pub button: MouseButton,
    pub x: i32,
    pub y: i32,
}

impl MouseEvent {
    /// The mouse event a raw record decodes to, when its tag is the mouse
    /// kind and its button code is known.
    pub open spec fn spec_from_raw(raw: tb_event) -> Option<MouseEvent> {
        if raw.kind == TB_EVENT_MOUSE {
            match MouseButton::spec_from_raw(raw.key) {
                Some(button) => Some(MouseEvent { button, x: raw.x, y: raw.y }),
                None => None,
            }
        } else {
            None
        }
    }

    /// Decodes a raw record of the mouse kind: the button comes from the
    /// six-code mouse decode, whose failure propagates; x and y are copied
    /// verbatim.
    pub fn from_raw(raw: &tb_event) -> (r: Option<MouseEvent>)
        ensures
            r == MouseEvent::spec_from_raw(*raw),
    {
        if raw.kind == TB_EVENT_MOUSE {
            match MouseButton::from_raw(raw.key) {
                Some(button) => Some(MouseEvent { button, x: raw.x, y: raw.y }),
                None => None,
            }
        } else {
            None
        }
    }
}

/// An event that describes a user input action, as received with
/// `Termbox::peek_event` or `Termbox::poll_event`.
#[derive(Clone, Copy, Debug, PartialEq, Eq)]
pub enum Event {
    /// The user pressed a key.
    Key(KeyEvent),
    /// The user resized the terminal window.
    Resize(ResizeEvent),
    /// The user pressed a mouse button or used the mouse wheel. Only
    /// reachable while mouse events are enabled.
    Mouse(MouseEvent),
}

impl Event {
    /// The event a raw record decodes to: exactly one typed variant for each
    /// known kind tag, and a decode failure for every other tag or for an
    /// unknown mouse button.
    pub open spec fn spec_from_raw(raw: tb_event) -> Option<Event> {
        if raw.kind == TB_EVENT_KEY {
            match KeyEvent::spec_from_raw(raw) {
                Some(e) => Some(Event::Key(e)),
                None => None,
            }
        } else if raw.kind == TB_EVENT_RESIZE {
            match ResizeEvent::spec_from_raw(raw) {
                Some(e) => Some(Event::Resize(e)),
                None => None,
            }
        } else if raw.kind == TB_EVENT_MOUSE {
            match MouseEvent::spec_from_raw(raw) {
                Some(e) => Some(Event::Mouse(e)),
                None => None,
            }
        } else {
            None
        }
    }

    /// Decodes a raw record by dispatching strictly on its kind tag.
    pub fn from_raw(raw: &tb_event) -> (r: Option<Event>)
        ensures
            r == Event::spec_from_raw(*raw),
    {
        if raw.kind == TB_EVENT_KEY {
            match KeyEvent::from_raw(raw) {
                Some(e) => Some(Event::Key(e)),
                None => None,
            }
        } else if raw.kind == TB_EVENT_RESIZE {
            match ResizeEvent::from_raw(raw) {
                Some(e) => Some(Event::Resize(e)),
                None => None,
            }
        } else if raw.kind == TB_EVENT_MOUSE {
            match MouseEvent::from_raw(raw) {
                Some(e) => Some(Event::Mouse(e)),
                None => None,
            }
        } else {
            None
        }
    }
}

impl tb_event {
    /// Decodes this raw record into the typed event model; the same decode
    /// as `Event::from_raw`.
    pub fn to_safe_event(&self) -> (r: Option<Event>)
        ensures
            r == Event::spec_from_raw(*self),
    {
        Event::from_raw(self)
    }
}

/// Decoding is total over the kind tags: a record of a known kind decodes to
/// the matching variant (for the mouse kind, exactly when its button code is
/// known), and a record of any other kind fails to decode.
pub proof fn lemma_event_decode_totality(raw: tb_event)
    ensures
        raw.kind == TB_EVENT_KEY ==> (Event::spec_from_raw(raw) matches Some(e)
            && e matches Event::Key(k) && Some(k) == KeyEvent::spec_from_raw(raw)),
        raw.kind == TB_EVENT_RESIZE ==> (Event::spec_from_raw(raw) matches Some(e)
            && e matches Event::Resize(r) && Some(r) == ResizeEvent::spec_from_raw(raw)),
        raw.kind == TB_EVENT_MOUSE ==> (Event::spec_from_raw(raw) matches Some(e)
            && e matches Event::Mouse(m) && Some(m) == MouseEvent::spec_from_raw(raw))
            == (MouseButton::spec_from_raw(raw.key) is Some),
        raw.kind != TB_EVENT_KEY && raw.kind != TB_EVENT_RESIZE && raw.kind != TB_EVENT_MOUSE
            ==> Event::spec_from_raw(raw) is None,
{
}

/// An invalid code point in a key record costs only the character: the
/// record still decodes to a key event, with no character and with its key
/// code and alt bit intact.
pub proof fn lemma_key_char_validation(raw: tb_event)
    requires
        raw.kind == TB_EVENT_KEY,
        !is_unicode_scalar(raw.ch),
    ensures
        (KeyEvent::spec_from_raw(raw) matches Some(k)
            && k.ch is None
            && k.key == raw.key
            && k.alt == (raw.mods & TB_MOD_ALT != 0)),
{
}

} // verus!
