//! The session: the single live handle on the terminal.
//!
//! A session is granted by `open` against the process-wide exclusivity flag
//! and the driver's initialization outcome, and while it is open it carries
//! the checked model of the driver's state: the display grid, the input and
//! output modes, the mouse flag, the clear attributes and the cursor. Every
//! mutation is a verified decision over that model; the surrounding program
//! performs the matching driver call and feeds driver outcomes (event waits,
//! resize notifications) back in. Once closed — which releases the flag and
//! is idempotent — every operation is a safe no-op.

use vstd::prelude::*;

use crate::attributes::Attribute;
use crate::attributes::DEFAULT;
use crate::buffer::Cell;
use crate::buffer::CellBuffer;
use crate::buffer::GridView;
use crate::buffer::blit_source_index;
use crate::buffer::in_rect;
use crate::driver::TB_EVENT_MOUSE;
use crate::driver::TB_HIDE_CURSOR;
use crate::driver::tb_event;
use crate::events::Event;
use crate::internal::Lock;
use crate::modes::InitError;
use crate::modes::InputMode;
use crate::modes::OutputMode;

verus! {

/// The mathematical state of a session.
pub struct SessionView {
    pub is_open: bool,
    pub grid: GridView,
    pub input_mode: InputMode,
    pub mouse_enabled: bool,
    pub output_mode: OutputMode,
    pub clear_fg: Attribute,
    pub clear_bg: Attribute,
    pub cursor_x: int,
    pub cursor_y: int,
}

impl SessionView {
    /// Well-formedness: the grid is a well-formed buffer.
    pub open spec fn wf(self) -> bool {
        self.grid.wf()
    }

    /// This state with the input mode selected and everything else — the
    /// mouse flag above all — untouched.
    pub open spec fn with_input_mode(self, mode: InputMode) -> SessionView {
        SessionView { input_mode: mode, ..self }
    }

    /// This state with the mouse flag set and everything else — the input
    /// mode above all — untouched.
    pub open spec fn with_mouse(self, enabled: bool) -> SessionView {
        SessionView { mouse_enabled: enabled, ..self }
    }

    /// Whether two states agree on everything but the grid's cells.
    pub open spec fn same_apart_from_cells(self, other: SessionView) -> bool {
        &&& self.is_open == other.is_open
        &&& self.grid.width == other.grid.width
        &&& self.grid.height == other.grid.height
        &&& self.input_mode == other.input_mode
        &&& self.mouse_enabled == other.mouse_enabled
        &&& self.output_mode == other.output_mode
        &&& self.clear_fg == other.clear_fg
        &&& self.clear_bg == other.clear_bg
        &&& self.cursor_x == other.cursor_x
        &&& self.cursor_y == other.cursor_y
    }
}

/// Whether an open attempt is granted a session: the flag must have been
/// free and the driver's initialization must have succeeded.
pub open spec fn open_grants(locked: bool, init_code: i32) -> bool {
    !locked && init_code == 0
}

/// The exclusivity flag after an open attempt: a held flag stays held by
/// its session; a free flag is kept only by a successful attempt, and is
/// released again on any initialization failure.
pub open spec fn lock_after_open(locked: bool, init_code: i32) -> bool {
    locked || init_code == 0
}

/// The failure reported for a driver initialization code: one of the fixed
/// set, or the unknown-failure bucket for any other code.
pub open spec fn open_failure(init_code: i32) -> InitError
    recommends
        init_code != 0,
{
    match InitError::spec_from_raw(init_code) {
        Some(e) => e,
        None => InitError::Unknown(init_code),
    }
}

/// The state of a freshly opened session on a `width` by `height` terminal:
/// a default-filled grid, Esc input mode with the mouse disabled, normal
/// output mode, default clear attributes, and a hidden cursor.
pub open spec fn fresh_session(t: SessionView, width: int, height: int) -> bool {
    &&& t.is_open
    &&& t.wf()
    &&& t.grid.width == width
    &&& t.grid.height == height
    &&& forall|i: int| 0 <= i < t.grid.cells.len() ==> t.grid.cells[i] == Cell::spec_default()
    &&& t.input_mode == InputMode::Esc
    &&& !t.mouse_enabled
    &&& t.output_mode == OutputMode::Normal
    &&& t.clear_fg == DEFAULT
    &&& t.clear_bg == DEFAULT
    &&& t.cursor_x == TB_HIDE_CURSOR as int
    &&& t.cursor_y == TB_HIDE_CURSOR as int
}

/// Why retrieving an event failed.
#[derive(Clone, Copy, Debug, Hash, PartialEq, Eq, Structural)]
pub enum EventError {
    /// The driver's wait itself failed, with its negative return code:
    /// something is wrong with the terminal connection.
    Driver(i32),
    /// The driver reported a record whose kind tag is outside the known set.
    UnknownEventKind(u8),
    /// The driver reported a mouse record whose key code is none of the six
    /// known buttons.
    UnknownMouseButton(u16),
}

/// The failure reported for a raw record that does not decode: an unknown
/// button inside a mouse record, or an unrecognized kind tag.
pub open spec fn spec_decode_failure(raw: tb_event) -> EventError
    recommends
        Event::spec_from_raw(raw) is None,
{
    if raw.kind == TB_EVENT_MOUSE {
        EventError::UnknownMouseButton(raw.key)
    } else {
        EventError::UnknownEventKind(raw.kind)
    }
}

/// The main entry point for all terminal functions: the sole live handle on
/// the terminal, granted against the process-wide exclusivity flag.
#[derive(Debug)]
pub struct Termbox {
    is_open: bool,
    buffer: CellBuffer,
    input_mode: InputMode,
    mouse_enabled: bool,
    output_mode: OutputMode,
    clear_fg: Attribute,
    clear_bg: Attribute,
    cursor_x: i32,
    cursor_y: i32,
}

impl View for Termbox {
    type V = SessionView;

    closed spec fn view(&self) -> SessionView {
        SessionView {
            is_open: self.is_open,
            grid: self.buffer@,
            input_mode: self.input_mode,
            mouse_enabled: self.mouse_enabled,
            output_mode: self.output_mode,
            clear_fg: self.clear_fg,
            clear_bg: self.clear_bg,
            cursor_x: self.cursor_x as int,
            cursor_y: self.cursor_y as int,
        }
    }
}

impl Termbox {
    /// Opens a session: the one way a live handle comes to be.
    ///
    /// The caller acquires nothing itself; it hands in the process flag, the
    /// driver's initialization code and the driver's current dimensions. A
    /// held flag yields `Locked` and leaves the flag to its holder; with a
    /// free flag, a nonzero initialization code yields its failure and
    /// releases the flag again — the flag is never left held without a live
    /// session — and a zero code yields the fresh session, holding the flag.
    pub fn open(lock: &mut Lock, init_code: i32, width: i32, height: i32) -> (r: Result<
        Termbox,
        InitError,
    >)
        requires
            init_code == 0 ==> 0 <= width && 0 <= height && width as int * height as int
                <= usize::MAX as int,
        ensures
            (r is Ok) == open_grants(old(lock).spec_held(), init_code),
            final(lock).spec_held() == lock_after_open(old(lock).spec_held(), init_code),
            old(lock).spec_held() ==> r == Err::<Termbox, InitError>(InitError::Locked),
            !old(lock).spec_held() && init_code != 0 ==> r == Err::<Termbox, InitError>(
                open_failure(init_code),
            ),
            (r matches Ok(t) ==> fresh_session(t@, width as int, height as int)),
    {
        if !lock.acquire() {
            return Err(InitError::Locked);
        }
        if init_code != 0 {
            lock.release();
            return Err(
                match InitError::from_raw(init_code) {
                    Some(e) => e,
                    None => InitError::Unknown(init_code),
                },
            );
        }
        match CellBuffer::new(width, height) {
            Some(buffer) => Ok(
                Termbox {
                    is_open: true,
                    buffer,
                    input_mode: InputMode::Esc,
                    mouse_enabled: false,
                    output_mode: OutputMode::Normal,
                    clear_fg: DEFAULT,
                    clear_bg: DEFAULT,
                    cursor_x: TB_HIDE_CURSOR,
                    cursor_y: TB_HIDE_CURSOR,
                },
            ),
            None => {
                // Ruled out: the precondition bounds the dimensions.
                proof {
                    assert(false);
                }
                Err(InitError::Unknown(init_code))
            },
        }
    }

    /// Opens a session as `open` does, reporting a failure as its message.
    pub fn new(lock: &mut Lock, init_code: i32, width: i32, height: i32) -> (r: Result<
        Termbox,
        String,
    >)
        requires
            init_code == 0 ==> 0 <= width && 0 <= height && width as int * height as int
                <= usize::MAX as int,
        ensures
            (r is Ok) == open_grants(old(lock).spec_held(), init_code),
            final(lock).spec_held() == lock_after_open(old(lock).spec_held(), init_code),
            old(lock).spec_held() ==> (r matches Err(m) && m@
                == InitError::Locked.spec_as_str()),
            !old(lock).spec_held() && init_code != 0 ==> (r matches Err(m) && m@ == open_failure(
                init_code,
            ).spec_as_str()),
            (r matches Ok(t) ==> fresh_session(t@, width as int, height as int)),
    {
        match Termbox::open(lock, init_code, width, height) {
            Ok(t) => Ok(t),
            Err(e) => Err(e.as_str().to_owned()),
        }
    }

    /// Closes the session and releases the exclusivity flag. Idempotent: on
    /// an already-closed session nothing happens, and the driver shutdown is
    /// owed exactly once.
    pub fn close(&mut self, lock: &mut Lock)
        ensures
            final(self)@ == (SessionView { is_open: false, ..old(self)@ }),
            old(self)@.is_open ==> !final(lock).spec_held(),
            !old(self)@.is_open ==> *final(lock) == *old(lock),
    {
        if self.is_open {
            self.is_open = false;
            lock.release();
        }
    }

    /// Whether this session is open.
    pub fn is_open(&self) -> (r: bool)
        ensures
            r == self@.is_open,
    {
        self.is_open
    }

    /// The buffer dimensions as `(width, height)`, or `(0, 0)` when closed.
    pub fn get_size(&self) -> (r: (i32, i32))
        ensures
            self@.is_open ==> r.0 == self@.grid.width && r.1 == self@.grid.height,
            !self@.is_open ==> r.0 == 0 && r.1 == 0,
    {
        if self.is_open {
            (self.buffer.width(), self.buffer.height())
        } else {
            (0, 0)
        }
    }

    /// The width of the output buffer in character cells; zero when closed.
    pub fn width(&self) -> (r: i32)
        ensures
            r == (if self@.is_open {
                self@.grid.width
            } else {
                0
            }),
    {
        if self.is_open {
            self.buffer.width()
        } else {
            0
        }
    }

    /// The height of the output buffer in character cells; zero when closed.
    pub fn height(&self) -> (r: i32)
        ensures
            r == (if self@.is_open {
                self@.grid.height
            } else {
                0
            }),
    {
        if self.is_open {
            self.buffer.height()
        } else {
            0
        }
    }

    /// The cells of the model grid in row-major order.
    pub fn cell_buffer(&self) -> (r: &Vec<Cell>)
        ensures
            r@ == self@.grid.cells,
    {
        self.buffer.cells()
    }

    /// The input mode, or nothing when the session is closed.
    pub fn get_input_mode(&self) -> (r: Option<InputMode>)
        ensures
            r == (if self@.is_open {
                Some(self@.input_mode)
            } else {
                None::<InputMode>
            }),
    {
        if self.is_open {
            Some(self.input_mode)
        } else {
            None
        }
    }

    /// The input mode of an open session.
    pub fn input_mode(&self) -> (r: InputMode)
        requires
            self@.is_open,
        ensures
            r == self@.input_mode,
    {
        self.input_mode
    }

    /// Whether mouse events are enabled.
    pub fn is_mouse_enabled(&self) -> (r: bool)
        ensures
            r == self@.mouse_enabled,
    {
        self.mouse_enabled
    }

    /// The output mode, or nothing when the session is closed.
    pub fn get_output_mode(&self) -> (r: Option<OutputMode>)
        ensures
            r == (if self@.is_open {
                Some(self@.output_mode)
            } else {
                None::<OutputMode>
            }),
    {
        if self.is_open {
            Some(self.output_mode)
        } else {
            None
        }
    }

    /// The output mode of an open session.
    pub fn output_mode(&self) -> (r: OutputMode)
        requires
            self@.is_open,
        ensures
            r == self@.output_mode,
    {
        self.output_mode
    }

    /// Selects how ESC sequences are interpreted. The mouse flag is
    /// orthogonal state and is never disturbed: only the input mode changes.
    /// A no-op when closed.
    pub fn set_input_mode(&mut self, mode: InputMode)
        ensures
            old(self)@.is_open ==> final(self)@ == old(self)@.with_input_mode(mode),
            !old(self)@.is_open ==> *final(self) == *old(self),
    {
        if self.is_open {
            self.input_mode = mode;
        }
    }

    /// Enables or disables mouse events. The Esc/Alt selection is orthogonal
    /// state and is never disturbed: only the mouse flag changes. A no-op
    /// when closed.
    pub fn set_mouse_enabled(&mut self, enabled: bool)
        ensures
            old(self)@.is_open ==> final(self)@ == old(self)@.with_mouse(enabled),
            !old(self)@.is_open ==> *final(self) == *old(self),
    {
        if self.is_open {
            self.mouse_enabled = enabled;
        }
    }

    /// Selects how the driver interprets output attributes. A no-op when
    /// closed.
    pub fn set_output_mode(&mut self, mode: OutputMode)
        ensures
            old(self)@.is_open ==> final(self)@ == (SessionView {
                output_mode: mode,
                ..old(self)@
            }),
            !old(self)@.is_open ==> *final(self) == *old(self),
    {
        if self.is_open {
            self.output_mode = mode;
        }
    }

    /// Sets what attributes `clear` fills the buffer with. A no-op when
    /// closed.
    pub fn set_clear_attributes(&mut self, fg: Attribute, bg: Attribute)
        ensures
            old(self)@.is_open ==> final(self)@ == (SessionView {
                clear_fg: fg,
                clear_bg: bg,
                ..old(self)@
            }),
            !old(self)@.is_open ==> *final(self) == *old(self),
    {
        if self.is_open {
            self.clear_fg = fg;
            self.clear_bg = bg;
        }
    }

    /// Sets the cursor position; coordinates outside the buffer leave the
    /// cursor invisible. A no-op when closed.
    pub fn set_cursor(&mut self, x: i32, y: i32)
        ensures
            old(self)@.is_open ==> final(self)@ == (SessionView {
                cursor_x: x as int,
                cursor_y: y as int,
                ..old(self)@
            }),
            !old(self)@.is_open ==> *final(self) == *old(self),
    {
        if self.is_open {
            self.cursor_x = x;
            self.cursor_y = y;
        }
    }

    /// Moves the cursor to the driver's "hidden" coordinate, making it
    /// invisible: nothing more than `set_cursor` at that position.
    pub fn hide_cursor(&mut self)
        ensures
            old(self)@.is_open ==> final(self)@ == (SessionView {
                cursor_x: TB_HIDE_CURSOR as int,
                cursor_y: TB_HIDE_CURSOR as int,
                ..old(self)@
            }),
            !old(self)@.is_open ==> *final(self) == *old(self),
    {
        self.set_cursor(TB_HIDE_CURSOR, TB_HIDE_CURSOR);
    }

    /// Changes a single cell of the output buffer; a position outside the
    /// buffer, or a closed session, is a no-op.
    pub fn change_cell(&mut self, x: i32, y: i32, ch: char, fg: Attribute, bg: Attribute)
        requires
            old(self)@.wf(),
        ensures
            final(self)@.wf(),
            final(self)@.same_apart_from_cells(old(self)@),
            !old(self)@.is_open ==> *final(self) == *old(self),
            old(self)@.is_open ==> forall|dx: int, dy: int|
                #![trigger old(self)@.grid.in_bounds(dx, dy)]
                #![trigger final(self)@.grid.cell_at(dx, dy)]
                old(self)@.grid.in_bounds(dx, dy) ==> final(self)@.grid.cell_at(dx, dy) == (if dx
                    == x as int && dy == y as int {
                    Cell { ch, fg, bg }
                } else {
                    old(self)@.grid.cell_at(dx, dy)
                }),
    {
        if self.is_open {
            self.buffer.put_cell(x, y, Cell { ch, fg, bg });
        }
    }

    /// Writes a single cell; a position outside the buffer, or a closed
    /// session, is a no-op.
    pub fn put_cell(&mut self, x: i32, y: i32, cell: Cell)
        requires
            old(self)@.wf(),
        ensures
            final(self)@.wf(),
            final(self)@.same_apart_from_cells(old(self)@),
            !old(self)@.is_open ==> *final(self) == *old(self),
            old(self)@.is_open ==> forall|dx: int, dy: int|
                #![trigger old(self)@.grid.in_bounds(dx, dy)]
                #![trigger final(self)@.grid.cell_at(dx, dy)]
                old(self)@.grid.in_bounds(dx, dy) ==> final(self)@.grid.cell_at(dx, dy) == (if dx
                    == x as int && dy == y as int {
                    cell
                } else {
                    old(self)@.grid.cell_at(dx, dy)
                }),
    {
        if self.is_open {
            self.buffer.put_cell(x, y, cell);
        }
    }

    /// Copies a rectangular region of cells from a slice into the output
    /// buffer at `(x, y)`, clipped to the visible intersection.
    ///
    /// The written destination cells are exactly the intersection of the
    /// requested rectangle with the current buffer bounds, re-validated on
    /// every call; every other cell is unchanged. A rectangle without
    /// positive extent, or fully outside the buffer, or a closed session,
    /// is a no-op.
    pub fn blit(&mut self, x: i32, y: i32, w: i32, h: i32, cells: &[Cell])
        requires
            old(self)@.wf(),
            w > 0 && h > 0 ==> cells@.len() >= w as int * h as int,
        ensures
            final(self)@.wf(),
            final(self)@.same_apart_from_cells(old(self)@),
            !old(self)@.is_open ==> *final(self) == *old(self),
            old(self)@.is_open ==> forall|dx: int, dy: int|
                #![trigger old(self)@.grid.in_bounds(dx, dy)]
                #![trigger final(self)@.grid.cell_at(dx, dy)]
                old(self)@.grid.in_bounds(dx, dy) ==> final(self)@.grid.cell_at(dx, dy) == (
                if in_rect(x as int, y as int, w as int, h as int, dx, dy) {
                    cells@[blit_source_index(x as int, y as int, w as int, dx, dy)]
                } else {
                    old(self)@.grid.cell_at(dx, dy)
                }),
            w < 1 || h < 1 || x as int >= old(self)@.grid.width || y as int
                >= old(self)@.grid.height || x as int + w as int <= 0 || y as int + h as int
                <= 0 ==> final(self)@ == old(self)@,
    {
        if self.is_open {
            self.buffer.blit(x, y, w, h, cells);
        }
    }

    /// Clears the output buffer: every cell becomes a space in the
    /// attributes chosen with `set_clear_attributes`. A no-op when closed.
    pub fn clear(&mut self)
        requires
            old(self)@.wf(),
        ensures
            final(self)@.wf(),
            final(self)@.same_apart_from_cells(old(self)@),
            !old(self)@.is_open ==> *final(self) == *old(self),
            old(self)@.is_open ==> forall|i: int|
                0 <= i < final(self)@.grid.cells.len() ==> final(self)@.grid.cells[i] == (Cell {
                    ch: ' ',
                    fg: old(self)@.clear_fg,
                    bg: old(self)@.clear_bg,
                }),
    {
        if self.is_open {
            let fg = self.clear_fg;
            let bg = self.clear_bg;
            self.buffer.clear(fg, bg);
        }
    }

    /// Marks the point at which the buffered changes go to the terminal.
    /// The model state does not change; presenting is the driver's work,
    /// performed by the surrounding program against the cells of
    /// `cell_buffer`.
    pub fn present(&mut self)
        ensures
            *final(self) == *old(self),
    {
    }

    /// Writes a horizontal run of characters without wrapping, clipped to
    /// the buffer. A quick way to put a string up without many options; a
    /// no-op when closed.
    pub fn put_str(&mut self, x: i32, y: i32, msg: &str, fg: Attribute, bg: Attribute)
        requires
            old(self)@.wf(),
        ensures
            final(self)@.wf(),
            final(self)@.same_apart_from_cells(old(self)@),
            !old(self)@.is_open ==> *final(self) == *old(self),
            old(self)@.is_open ==> forall|dx: int, dy: int|
                #![trigger old(self)@.grid.in_bounds(dx, dy)]
                #![trigger final(self)@.grid.cell_at(dx, dy)]
                old(self)@.grid.in_bounds(dx, dy) ==> final(self)@.grid.cell_at(dx, dy) == (if dy
                    == y as int && x as int <= dx < x as int + msg@.len() {
                    Cell { ch: msg@[dx - x as int], fg, bg }
                } else {
                    old(self)@.grid.cell_at(dx, dy)
                }),
    {
        if !self.is_open {
            return ;
        }
        let wide = self.buffer.width();
        let high = self.buffer.height();
        if y < 0 || y >= high || x >= wide {
            return ;
        }
        let n = msg.unicode_len();
        let mut i: usize = 0;
        while i < n
            invariant_except_break
                x as int + i as int <= wide as int,
            invariant
                i <= n,
                n == msg@.len(),
                self@.wf(),
                self@.is_open,
                self@.same_apart_from_cells(old(self)@),
                self@.grid.width == wide as int,
                forall|dx: int, dy: int|
                    #![trigger old(self)@.grid.in_bounds(dx, dy)]
                    #![trigger self@.grid.cell_at(dx, dy)]
                    old(self)@.grid.in_bounds(dx, dy) ==> self@.grid.cell_at(dx, dy) == (if dy
                        == y as int && x as int <= dx < x as int + i {
                        Cell { ch: msg@[dx - x as int], fg, bg }
                    } else {
                        old(self)@.grid.cell_at(dx, dy)
                    }),
            ensures
                i <= n,
                n == msg@.len(),
                self@.wf(),
                self@.is_open,
                self@.same_apart_from_cells(old(self)@),
                forall|dx: int, dy: int|
                    #![trigger old(self)@.grid.in_bounds(dx, dy)]
                    #![trigger self@.grid.cell_at(dx, dy)]
                    old(self)@.grid.in_bounds(dx, dy) ==> self@.grid.cell_at(dx, dy) == (if dy
                        == y as int && x as int <= dx < x as int + n {
                        Cell { ch: msg@[dx - x as int], fg, bg }
                    } else {
                        old(self)@.grid.cell_at(dx, dy)
                    }),
            decreases n - i,
        {
            let ch = msg.get_char(i);
            let pos: i64 = x as i64 + i as i64;
            if pos >= 0 {
                self.buffer.put_cell(pos as i32, y, Cell { ch, fg, bg });
            }
            i = i + 1;
            if pos + 1 >= wide as i64 {
                break ;
            }
        }
    }

    /// Applies a driver-reported change of the terminal's size: the buffer
    /// takes the new dimensions, cleared by the driver to spaces in the
    /// current clear attributes. Everything else is untouched; a no-op when
    /// closed.
    pub fn resize(&mut self, width: i32, height: i32)
        requires
            old(self)@.wf(),
            0 <= width,
            0 <= height,
            width as int * height as int <= usize::MAX as int,
        ensures
            final(self)@.wf(),
            !old(self)@.is_open ==> *final(self) == *old(self),
            old(self)@.is_open ==> {
                &&& final(self)@.is_open
                &&& final(self)@.grid.width == width as int
                &&& final(self)@.grid.height == height as int
                &&& forall|i: int|
                    0 <= i < final(self)@.grid.cells.len() ==> final(self)@.grid.cells[i] == (
                    Cell { ch: ' ', fg: old(self)@.clear_fg, bg: old(self)@.clear_bg })
                &&& final(self)@.input_mode == old(self)@.input_mode
                &&& final(self)@.mouse_enabled == old(self)@.mouse_enabled
                &&& final(self)@.output_mode == old(self)@.output_mode
                &&& final(self)@.clear_fg == old(self)@.clear_fg
                &&& final(self)@.clear_bg == old(self)@.clear_bg
                &&& final(self)@.cursor_x == old(self)@.cursor_x
                &&& final(self)@.cursor_y == old(self)@.cursor_y
            },
    {
        if !self.is_open {
            return ;
        }
        match CellBuffer::new(width, height) {
            Some(buffer) => {
                self.buffer = buffer;
                let fg = self.clear_fg;
                let bg = self.clear_bg;
                self.buffer.clear(fg, bg);
            },
            None => {
                // Ruled out: the precondition bounds the dimensions.
                proof {
                    assert(false);
                }
            },
        }
    }

    /// Decides the outcome of a blocking wait for an event, from the
    /// driver's return code and the record it filled in.
    ///
    /// The driver owes either an event or an explicit error here — never
    /// "nothing" — so a non-positive return is a hard failure. A positive
    /// return decodes the record: a record that does not decode is a hard
    /// failure too, never silently dropped. The session itself is untouched.
    pub fn poll_event(&mut self, result: i32, raw: &tb_event) -> (r: Result<Event, EventError>)
        requires
            old(self)@.is_open,
        ensures
            *final(self) == *old(self),
            result <= 0 ==> r == Err::<Event, EventError>(EventError::Driver(result)),
            result > 0 ==> r == (match Event::spec_from_raw(*raw) {
                Some(e) => Ok::<Event, EventError>(e),
                None => Err::<Event, EventError>(spec_decode_failure(*raw)),
            }),
    {
        if result <= 0 {
            return Err(EventError::Driver(result));
        }
        match Event::from_raw(raw) {
            Some(e) => Ok(e),
            None => {
                if raw.kind == TB_EVENT_MOUSE {
                    Err(EventError::UnknownMouseButton(raw.key))
                } else {
                    Err(EventError::UnknownEventKind(raw.kind))
                }
            },
        }
    }

    /// Decides the outcome of a bounded wait for an event, from the
    /// driver's return code and the record it filled in.
    ///
    /// A zero return is the normal "no event arrived in time" outcome, not
    /// an error; a negative return is a hard failure; a positive return
    /// decodes the record, and a record that does not decode is a hard
    /// failure. On a closed session there is nothing to wait for. The
    /// session itself is untouched.
    pub fn peek_event(&mut self, result: i32, raw: &tb_event) -> (r: Result<
        Option<Event>,
        EventError,
    >)
        ensures
            *final(self) == *old(self),
            !old(self)@.is_open ==> r == Ok::<Option<Event>, EventError>(None),
            old(self)@.is_open && result < 0 ==> r == Err::<Option<Event>, EventError>(
                EventError::Driver(result),
            ),
            old(self)@.is_open && result == 0 ==> r == Ok::<Option<Event>, EventError>(None),
            old(self)@.is_open && result > 0 ==> r == (match Event::spec_from_raw(*raw) {
                Some(e) => Ok::<Option<Event>, EventError>(Some(e)),
                None => Err::<Option<Event>, EventError>(spec_decode_failure(*raw)),
            }),
    {
        if !self.is_open {
            return Ok(None);
        }
        if result < 0 {
            return Err(EventError::Driver(result));
        }
        if result == 0 {
            return Ok(None);
        }
        match Event::from_raw(raw) {
            Some(e) => Ok(Some(e)),
            None => {
                if raw.kind == TB_EVENT_MOUSE {
                    Err(EventError::UnknownMouseButton(raw.key))
                } else {
                    Err(EventError::UnknownEventKind(raw.kind))
                }
            },
        }
    }
}

/// At most one session per exclusivity flag. A granted open holds the flag;
/// while the flag is held no open is granted, whatever the driver reports;
/// and an open that was not granted never leaves a free flag held — a
/// failed initialization releases it.
pub proof fn lemma_open_singleton(first_code: i32, second_code: i32)
    ensures
        open_grants(false, first_code) ==> lock_after_open(false, first_code),
        !open_grants(lock_after_open(false, 0), second_code),
        !open_grants(true, second_code),
        first_code != 0 ==> !lock_after_open(false, first_code),
{
}

/// The mouse flag and the Esc/Alt selection are independent axes of the
/// input state. Enabling the mouse twice is the same as enabling it once;
/// selecting an input mode never changes the mouse flag — in particular it
/// never disables an enabled mouse — and toggling the mouse never changes
/// the selected input mode.
pub proof fn lemma_mouse_toggle_independence(s: SessionView, mode: InputMode, enabled: bool)
    ensures
        s.with_mouse(enabled).with_mouse(enabled) == s.with_mouse(enabled),
        s.with_mouse(enabled).with_input_mode(mode).mouse_enabled == enabled,
        s.with_mouse(true).with_input_mode(mode).mouse_enabled,
        s.with_input_mode(mode).with_mouse(enabled).input_mode == mode,
{
}

} // verus!
