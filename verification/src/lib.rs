//! A safe access layer over a character-cell terminal display.
//!
//! The crate models the terminal as a session that owns exclusive access to
//! the display: a rectangular grid of cells that can be written and
//! composited, plus a typed decoding of the raw input records (keyboard,
//! resize, mouse) that the terminal driver reports. The driver itself — the
//! code that talks to the device — is an external collaborator; this crate
//! holds the decisions: bounds checking, clipping, mode bookkeeping and
//! event decoding, each with a verified contract.

pub mod attributes;
pub mod buffer;
pub mod driver;
pub mod internal;
pub mod events;
pub mod keys;
pub mod modes;
pub mod session;

pub use crate::attributes::Attribute;
pub use crate::buffer::Cell;
pub use crate::buffer::CellBuffer;
pub use crate::events::Event;
pub use crate::events::KeyEvent;
pub use crate::events::MouseButton;
pub use crate::events::MouseEvent;
pub use crate::events::ResizeEvent;
pub use crate::keys::Key;
pub use crate::modes::InitError;
pub use crate::modes::InputMode;
pub use crate::modes::OutputMode;
pub use crate::internal::Lock;
pub use crate::session::EventError;
pub use crate::session::Termbox;
