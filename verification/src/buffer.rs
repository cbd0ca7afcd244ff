//! The display buffer: a bounds-checked two-dimensional grid of cells.
//!
//! The driver owns the real cell memory; this type is the checked model of
//! it. Its width and height are the dimensions last reported by the driver
//! and can change on a resize, so every operation validates its geometry
//! against the current dimensions: a single-cell write outside the grid is a
//! no-op, and a rectangle composited with `blit` is clipped to the visible
//! intersection, with no partial or out-of-bounds writes.

use vstd::prelude::*;

use crate::attributes::Attribute;
use crate::driver::tb_cell;
use crate::events::is_unicode_scalar;

verus! {

/// A single character cell: a Unicode scalar value and the foreground and
/// background attribute codes.
#[derive(Clone, Copy, Debug, PartialEq, Eq)]
pub struct Cell {
    /// The character displayed by the cell.
    pub ch: char,
    /// The foreground attribute.
    pub fg: Attribute,
    /// The background attribute.
    pub bg: Attribute,
}

impl Cell {
    /// The cell that `Cell::default()` returns: a NUL character with the
    /// default attributes.
    pub open spec fn spec_default() -> Cell {
        Cell { ch: '\0', fg: 0, bg: 0 }
    }

    /// The raw form of this cell, with the character widened to its code
    /// point.
    pub fn to_raw(self) -> (r: tb_cell)
        ensures
            r.ch == self.ch as u32,
            r.fg == self.fg,
            r.bg == self.bg,
    {
        tb_cell { ch: self.ch as u32, fg: self.fg, bg: self.bg }
    }
}

impl Default for Cell {
    /// A NUL character with the default attributes.
    fn default() -> (r: Cell)
        ensures
            r == Cell::spec_default(),
    {
        Cell { ch: '\0', fg: 0, bg: 0 }
    }
}

impl tb_cell {
    /// The checked form of this raw cell: an invalid code point becomes the
    /// NUL character rather than a failure.
    pub fn to_cell(self) -> (r: Cell)
        ensures
            r.ch == (if is_unicode_scalar(self.ch) {
                self.ch as char
            } else {
                '\0'
            }),
            r.fg == self.fg,
            r.bg == self.bg,
    {
        let ch = match char::from_u32(self.ch) {
            Some(c) => c,
            None => '\0',
        };
        Cell { ch, fg: self.fg, bg: self.bg }
    }
}

/// The mathematical state of a display buffer: its dimensions and its cells
/// in row-major order.
pub struct GridView {
    pub width: int,
    pub height: int,
    pub cells: Seq<Cell>,
}

impl GridView {
    /// Well-formedness: non-negative dimensions and exactly one cell per
    /// grid position.
    pub open spec fn wf(self) -> bool {
        &&& 0 <= self.width
        &&& 0 <= self.height
        &&& self.cells.len() == self.width * self.height
    }

    /// Whether a position lies inside the grid.
    pub open spec fn in_bounds(self, x: int, y: int) -> bool {
        0 <= x < self.width && 0 <= y < self.height
    }

    /// The cell at a position, in row-major order.
    pub open spec fn cell_at(self, x: int, y: int) -> Cell
        recommends
            self.in_bounds(x, y),
    {
        self.cells[y * self.width + x]
    }
}

/// Whether a position lies inside the rectangle of width `w` and height `h`
/// whose top-left corner is at `(x, y)`.
pub open spec fn in_rect(x: int, y: int, w: int, h: int, dx: int, dy: int) -> bool {
    x <= dx < x + w && y <= dy < y + h
}

/// The index into a row-major source rectangle at `(x, y)` of width `w`
/// that feeds the destination position `(dx, dy)`.
pub open spec fn blit_source_index(x: int, y: int, w: int, dx: int, dy: int) -> int {
    (dy - y) * w + (dx - x)
}

/// A row-major index lies below the area of its grid; for dimensions that
/// fit an `i32`, the area fits an `i64`.
proof fn lemma_row_major_bound(w: int, h: int, c: int, r: int)
    requires
        0 <= c < w <= 0x8000_0000,
        0 <= r < h <= 0x8000_0000,
    ensures
        0 <= r * w + c < w * h,
        w * h <= 0x4000_0000_0000_0000,
{
    assert(0 <= r * w + c < w * h && w * h <= 0x4000_0000_0000_0000) by (nonlinear_arith)
        requires
            0 <= c < w <= 0x8000_0000,
            0 <= r < h <= 0x8000_0000,
    ;
}

/// Distinct in-row-range positions have distinct row-major indices.
proof fn lemma_row_major_distinct(w: int, c1: int, r1: int, c2: int, r2: int)
    requires
        0 <= c1 < w,
        0 <= c2 < w,
        c1 != c2 || r1 != r2,
    ensures
        r1 * w + c1 != r2 * w + c2,
{
    assert(r1 * w + c1 != r2 * w + c2) by (nonlinear_arith)
        requires
            0 <= c1 < w,
            0 <= c2 < w,
            c1 != c2 || r1 != r2,
    ;
}

/// A bounds-checked grid of cells, the checked model of the driver's
/// display buffer.
#[derive(Debug)]
pub struct CellBuffer {
    width: i32,
    height: i32,
    cells: Vec<Cell>,
}

impl View for CellBuffer {
    type V = GridView;

    closed spec fn view(&self) -> GridView {
        GridView { width: self.width as int, height: self.height as int, cells: self.cells@ }
    }
}

impl CellBuffer {
    /// Makes a grid of the given dimensions filled with default cells. The
    /// cell count is computed with an overflow-checked multiply: dimensions
    /// whose product does not fit are refused rather than truncated, as are
    /// negative dimensions.
    pub fn new(width: i32, height: i32) -> (r: Option<CellBuffer>)
        ensures
            (r is Some) == (0 <= width && 0 <= height && width as int * height as int
                <= usize::MAX as int),
            (r matches Some(b) ==> {
                &&& b@.wf()
                &&& b@.width == width as int
                &&& b@.height == height as int
                &&& forall|i: int|
                    0 <= i < b@.cells.len() ==> b@.cells[i] == Cell::spec_default()
            }),
    {
        if width < 0 || height < 0 {
            return None;
        }
        match (width as usize).checked_mul(height as usize) {
            None => None,
            Some(area) => {
                let mut cells: Vec<Cell> = Vec::new();
                let mut i: usize = 0;
                while i < area
                    invariant
                        i <= area,
                        cells@.len() == i,
                        forall|j: int| 0 <= j < i ==> cells@[j] == Cell::spec_default(),
                    decreases area - i,
                {
                    cells.push(Cell::default());
                    i = i + 1;
                }
                Some(CellBuffer { width, height, cells })
            },
        }
    }

    /// The width the grid currently has.
    pub fn width(&self) -> (r: i32)
        ensures
            r == self@.width,
    {
        self.width
    }

    /// The height the grid currently has.
    pub fn height(&self) -> (r: i32)
        ensures
            r == self@.height,
    {
        self.height
    }

    /// The cells of the grid in row-major order.
    pub fn cells(&self) -> (r: &Vec<Cell>)
        ensures
            r@ == self@.cells,
    {
        &self.cells
    }

    /// Writes one cell; a position outside the grid is a no-op.
    pub fn put_cell(&mut self, x: i32, y: i32, cell: Cell)
        requires
            old(self)@.wf(),
        ensures
            final(self)@.wf(),
            final(self)@.width == old(self)@.width,
            final(self)@.height == old(self)@.height,
            final(self)@.cells == (if old(self)@.in_bounds(x as int, y as int) {
                old(self)@.cells.update(y as int * old(self)@.width + x as int, cell)
            } else {
                old(self)@.cells
            }),
            forall|dx: int, dy: int|
                #![trigger old(self)@.in_bounds(dx, dy)]
                #![trigger final(self)@.cell_at(dx, dy)]
                old(self)@.in_bounds(dx, dy) ==> final(self)@.cell_at(dx, dy) == (if dx == x as int
                    && dy == y as int {
                    cell
                } else {
                    old(self)@.cell_at(dx, dy)
                }),
    {
        if x >= 0 && y >= 0 && x < self.width && y < self.height {
            let n = self.cells.len();
            proof {
                lemma_row_major_bound(self@.width, self@.height, x as int, y as int);
            }
            let idx: usize = (y as i64 * self.width as i64 + x as i64) as usize;
            assert(idx < n);
            let ghost prev = self@;
            self.cells.set(idx, cell);
            proof {
                assert forall|dx: int, dy: int| #[trigger] old(self)@.in_bounds(dx, dy)
                    implies self@.cell_at(dx, dy) == (if dx == x as int && dy == y as int {
                        cell
                    } else {
                        prev.cell_at(dx, dy)
                    }) by {
                    lemma_row_major_bound(prev.width, prev.height, dx, dy);
                    if !(dx == x as int && dy == y as int) {
                        lemma_row_major_distinct(prev.width, dx, dy, x as int, y as int);
                    }
                }
            }
        }
    }

    /// Fills the whole grid with a space in the given attributes.
    pub fn clear(&mut self, fg: Attribute, bg: Attribute)
        requires
            old(self)@.wf(),
        ensures
            final(self)@.wf(),
            final(self)@.width == old(self)@.width,
            final(self)@.height == old(self)@.height,
            final(self)@.cells.len() == old(self)@.cells.len(),
            forall|i: int|
                0 <= i < final(self)@.cells.len() ==> final(self)@.cells[i] == (Cell {
                    ch: ' ',
                    fg,
                    bg,
                }),
    {
        let n = self.cells.len();
        let mut i: usize = 0;
        while i < n
            invariant
                i <= n,
                n == self.cells@.len(),
                self.width == old(self).width,
                self.height == old(self).height,
                forall|j: int| 0 <= j < i ==> self.cells@[j] == (Cell { ch: ' ', fg, bg }),
            decreases n - i,
        {
            self.cells.set(i, Cell { ch: ' ', fg, bg });
            i = i + 1;
        }
    }

    /// Composites a rectangle of cells into the grid at `(x, y)`, clipped to
    /// the visible intersection.
    ///
    /// The written destination cells are exactly the intersection of the
    /// requested rectangle with the grid; every other cell is unchanged. A
    /// rectangle with no positive extent, or lying fully outside the grid,
    /// is a no-op.
    #[verifier::loop_isolation(false)]
    pub fn blit(&mut self, x: i32, y: i32, w: i32, h: i32, cells: &[Cell])
        requires
            old(self)@.wf(),
            w > 0 && h > 0 ==> cells@.len() >= w as int * h as int,
        ensures
            final(self)@.wf(),
            final(self)@.width == old(self)@.width,
            final(self)@.height == old(self)@.height,
            final(self)@.cells.len() == old(self)@.cells.len(),
            forall|dx: int, dy: int|
                #![trigger old(self)@.in_bounds(dx, dy)]
                #![trigger final(self)@.cell_at(dx, dy)]
                old(self)@.in_bounds(dx, dy) ==> final(self)@.cell_at(dx, dy) == (if in_rect(
                    x as int,
                    y as int,
                    w as int,
                    h as int,
                    dx,
                    dy,
                ) {
                    cells@[blit_source_index(x as int, y as int, w as int, dx, dy)]
                } else {
                    old(self)@.cell_at(dx, dy)
                }),
            w < 1 || h < 1 || x as int >= old(self)@.width || y as int >= old(self)@.height
                || x as int + w as int <= 0 || y as int + h as int <= 0 ==> final(self)@
                == old(self)@,
    {
        if w < 1 || h < 1 {
            return;
        }
        let wide: i64 = self.width as i64;
        let high: i64 = self.height as i64;
        let xl: i64 = x as i64;
        let yl: i64 = y as i64;
        let wl: i64 = w as i64;
        let hl: i64 = h as i64;
        if xl + wl <= 0 || yl + hl <= 0 || xl >= wide || yl >= high {
            return;
        }
        let n = self.cells.len();
        let m = cells.len();
        // The sub-rectangle of the request that meets the grid, in
        // coordinates relative to the rectangle's own corner.
        let lo_x: i64 = if xl < 0 { -xl } else { 0 };
        let lo_y: i64 = if yl < 0 { -yl } else { 0 };
        let hi_x: i64 = (if xl + wl < wide { xl + wl } else { wide }) - xl;
        let hi_y: i64 = (if yl + hl < high { yl + hl } else { high }) - yl;
        let mut cy: i64 = lo_y;
        while cy < hi_y
            invariant
                lo_y <= cy <= hi_y,
                self@.wf(),
                self@.width == old(self)@.width,
                self@.height == old(self)@.height,
                self@.cells.len() == old(self)@.cells.len(),
                forall|dx: int, dy: int|
                    #[trigger] old(self)@.in_bounds(dx, dy) ==> self@.cell_at(dx, dy) == (if in_rect(
                        x as int,
                        y as int,
                        w as int,
                        h as int,
                        dx,
                        dy,
                    ) && dy < y + cy {
                        cells@[blit_source_index(x as int, y as int, w as int, dx, dy)]
                    } else {
                        old(self)@.cell_at(dx, dy)
                    }),
            decreases hi_y - cy,
        {
            let mut cx: i64 = lo_x;
            while cx < hi_x
                invariant
                    lo_x <= cx <= hi_x,
                    lo_y <= cy < hi_y,
                    self@.wf(),
                    self@.width == old(self)@.width,
                    self@.height == old(self)@.height,
                    self@.cells.len() == old(self)@.cells.len(),
                    forall|dx: int, dy: int|
                        #[trigger] old(self)@.in_bounds(dx, dy) ==> self@.cell_at(dx, dy) == (if in_rect(
                            x as int,
                            y as int,
                            w as int,
                            h as int,
                            dx,
                            dy,
                        ) && (dy < y + cy || (dy == y + cy && dx < x + cx)) {
                            cells@[blit_source_index(x as int, y as int, w as int, dx, dy)]
                        } else {
                            old(self)@.cell_at(dx, dy)
                        }),
                decreases hi_x - cx,
            {
                proof {
                    lemma_row_major_bound(w as int, h as int, cx as int, cy as int);
                    lemma_row_major_bound(
                        self@.width,
                        self@.height,
                        x as int + cx,
                        y as int + cy,
                    );
                }
                let src: usize = (cy * wl + cx) as usize;
                let dst: usize = ((yl + cy) * wide + (xl + cx)) as usize;
                assert(src < m && dst < n);
                let ghost prev = self@;
                self.cells.set(dst, cells[src]);
                proof {
                    let ghost val = cells@[src as int];
                    assert forall|dx: int, dy: int| #[trigger] old(self)@.in_bounds(dx, dy)
                        implies self@.cell_at(dx, dy) == (if dx == x + cx && dy == y + cy {
                            val
                        } else {
                            prev.cell_at(dx, dy)
                        }) by {
                        lemma_row_major_bound(prev.width, prev.height, dx, dy);
                        if !(dx == x + cx && dy == y + cy) {
                            lemma_row_major_distinct(
                                prev.width,
                                dx,
                                dy,
                                x as int + cx,
                                y as int + cy,
                            );
                        }
                    }
                }
                cx = cx + 1;
            }
            cy = cy + 1;
        }
    }
}

} // verus!
