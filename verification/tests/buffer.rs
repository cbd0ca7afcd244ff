//! Tests for the display buffer: construction, single-cell writes, clearing
//! and blit clipping.

use termbox::Cell;
use termbox::CellBuffer;

fn mark(tag: u16) -> Cell {
    Cell { ch: 'A', fg: tag, bg: 0 }
}

fn grid(width: i32, height: i32) -> CellBuffer {
    CellBuffer::new(width, height).unwrap()
}

fn cell(buf: &CellBuffer, x: i32, y: i32) -> Cell {
    buf.cells()[(y * buf.width() + x) as usize]
}

#[test]
fn new_makes_default_cells() {
    let buf = grid(10, 5);
    assert_eq!(buf.width(), 10);
    assert_eq!(buf.height(), 5);
    assert_eq!(buf.cells().len(), 50);
    assert!(buf.cells().iter().all(|c| *c == Cell::default()));
}

#[test]
fn new_rejects_negative_dimensions() {
    assert!(CellBuffer::new(-1, 5).is_none());
    assert!(CellBuffer::new(5, -1).is_none());
    assert!(CellBuffer::new(0, 0).is_some());
}

#[test]
fn put_cell_writes_in_bounds_only() {
    let mut buf = grid(4, 3);
    buf.put_cell(2, 1, mark(7));
    assert_eq!(cell(&buf, 2, 1), mark(7));
    assert_eq!(cell(&buf, 1, 2), Cell::default());
    // Out-of-bounds writes change nothing.
    buf.put_cell(-1, 0, mark(9));
    buf.put_cell(0, -1, mark(9));
    buf.put_cell(4, 0, mark(9));
    buf.put_cell(0, 3, mark(9));
    let expected: Vec<Cell> =
        (0..12).map(|i| if i == 6 { mark(7) } else { Cell::default() }).collect();
    assert_eq!(buf.cells().as_slice(), expected.as_slice());
}

#[test]
fn clear_fills_with_attributes() {
    let mut buf = grid(3, 2);
    buf.put_cell(0, 0, mark(1));
    buf.clear(4, 2);
    assert!(buf.cells().iter().all(|c| *c == Cell { ch: ' ', fg: 4, bg: 2 }));
}

#[test]
fn blit_clips_left_edge() {
    // A 10-wide, 5-high buffer; a one-row blit starting two columns left of
    // the screen writes only its last three cells into columns 0, 1, 2.
    let mut buf = grid(10, 5);
    let src = [mark(0), mark(1), mark(2), mark(3), mark(4)];
    buf.blit(-2, 0, 5, 1, &src);
    assert_eq!(cell(&buf, 0, 0), mark(2));
    assert_eq!(cell(&buf, 1, 0), mark(3));
    assert_eq!(cell(&buf, 2, 0), mark(4));
    for x in 3..10 {
        assert_eq!(cell(&buf, x, 0), Cell::default());
    }
    for x in 0..10 {
        assert_eq!(cell(&buf, x, 1), Cell::default());
    }
}

#[test]
fn blit_interior() {
    let mut buf = grid(6, 4);
    let src: Vec<Cell> = (0..6).map(mark).collect();
    buf.blit(1, 1, 3, 2, &src);
    for y in 0..4 {
        for x in 0..6 {
            let expected = if (1..4).contains(&x) && (1..3).contains(&y) {
                mark(((y - 1) * 3 + (x - 1)) as u16)
            } else {
                Cell::default()
            };
            assert_eq!(cell(&buf, x, y), expected, "at ({x}, {y})");
        }
    }
}

#[test]
fn blit_clips_bottom_right() {
    let mut buf = grid(4, 3);
    let src: Vec<Cell> = (0..9).map(mark).collect();
    buf.blit(2, 1, 3, 3, &src);
    // Only the 2x2 overlap is written.
    assert_eq!(cell(&buf, 2, 1), mark(0));
    assert_eq!(cell(&buf, 3, 1), mark(1));
    assert_eq!(cell(&buf, 2, 2), mark(3));
    assert_eq!(cell(&buf, 3, 2), mark(4));
    assert_eq!(cell(&buf, 1, 1), Cell::default());
    assert_eq!(cell(&buf, 0, 0), Cell::default());
}

#[test]
fn blit_zero_extent_is_noop() {
    let mut buf = grid(5, 5);
    let before: Vec<Cell> = buf.cells().clone();
    buf.blit(1, 1, 0, 3, &[]);
    assert_eq!(buf.cells(), &before);
    buf.blit(1, 1, 3, 0, &[]);
    assert_eq!(buf.cells(), &before);
    buf.blit(1, 1, -2, -2, &[]);
    assert_eq!(buf.cells(), &before);
}

#[test]
fn blit_fully_outside_is_noop() {
    let mut buf = grid(5, 5);
    let before: Vec<Cell> = buf.cells().clone();
    let src: Vec<Cell> = (0..4).map(mark).collect();
    buf.blit(5, 0, 2, 2, &src); // right of the buffer
    buf.blit(0, 5, 2, 2, &src); // below the buffer
    buf.blit(-2, 0, 2, 2, &src); // left of the buffer
    buf.blit(0, -2, 2, 2, &src); // above the buffer
    assert_eq!(buf.cells(), &before);
}
