//! Tests for the session: the exclusivity gate, the state machine, mode
//! bookkeeping, buffer operations and event retrieval.

use termbox::Cell;
use termbox::Event;
use termbox::EventError;
use termbox::InitError;
use termbox::InputMode;
use termbox::Lock;
use termbox::OutputMode;
use termbox::Termbox;
use termbox::driver::tb_event;
use termbox::keys::KEY_ESC;

fn open_80x24(lock: &mut Lock) -> Termbox {
    Termbox::open(lock, 0, 80, 24).unwrap()
}

fn cell(t: &Termbox, x: i32, y: i32) -> Cell {
    t.cell_buffer()[(y * t.width() + x) as usize]
}

fn key_record(key: u16, ch: u32, mods: u8) -> tb_event {
    tb_event { kind: 1, mods, key, ch, w: 0, h: 0, x: 0, y: 0 }
}

#[test]
fn open_yields_fresh_session() {
    let mut lock = Lock::new();
    let t = open_80x24(&mut lock);
    assert!(t.is_open());
    assert_eq!(t.get_size(), (80, 24));
    assert_eq!(t.width(), 80);
    assert_eq!(t.height(), 24);
    assert_eq!(t.get_input_mode(), Some(InputMode::Esc));
    assert_eq!(t.input_mode(), InputMode::Esc);
    assert!(!t.is_mouse_enabled());
    assert_eq!(t.get_output_mode(), Some(OutputMode::Normal));
    assert_eq!(t.output_mode(), OutputMode::Normal);
    assert_eq!(t.cell_buffer().len(), 80 * 24);
}

#[test]
fn second_open_is_locked() {
    let mut lock = Lock::new();
    let first = open_80x24(&mut lock);
    // While the first session is live, a second attempt fails at once and
    // leaves the first session untouched.
    assert_eq!(Termbox::open(&mut lock, 0, 80, 24).unwrap_err(), InitError::Locked);
    assert!(first.is_open());
    assert_eq!(first.get_size(), (80, 24));
}

#[test]
fn open_after_close_succeeds() {
    let mut lock = Lock::new();
    let mut first = open_80x24(&mut lock);
    first.close(&mut lock);
    assert!(!first.is_open());
    let second = Termbox::open(&mut lock, 0, 80, 24);
    assert!(second.is_ok());
}

#[test]
fn failed_init_reports_its_code_and_releases_the_lock() {
    let mut lock = Lock::new();
    assert_eq!(Termbox::open(&mut lock, -1, 0, 0).unwrap_err(), InitError::UnsupportedTerminal);
    assert_eq!(Termbox::open(&mut lock, -2, 0, 0).unwrap_err(), InitError::FailedToOpenTty);
    assert_eq!(Termbox::open(&mut lock, -3, 0, 0).unwrap_err(), InitError::PipeTrapError);
    assert_eq!(Termbox::open(&mut lock, -9, 0, 0).unwrap_err(), InitError::Unknown(-9));
    // Every failure released the lock, so a clean open still succeeds.
    assert!(Termbox::open(&mut lock, 0, 80, 24).is_ok());
}

#[test]
fn new_reports_failures_as_messages() {
    let mut lock = Lock::new();
    let first = Termbox::new(&mut lock, 0, 80, 24).unwrap();
    assert!(first.is_open());
    assert_eq!(Termbox::new(&mut lock, 0, 80, 24).unwrap_err(), "locked");
    let mut lock2 = Lock::new();
    assert_eq!(Termbox::new(&mut lock2, -1, 0, 0).unwrap_err(), "unsupported terminal");
    assert_eq!(Termbox::new(&mut lock2, -7, 0, 0).unwrap_err(), "unknown initialization failure");
}

#[test]
fn close_is_idempotent_and_everything_after_is_a_noop() {
    let mut lock = Lock::new();
    let mut t = open_80x24(&mut lock);
    t.change_cell(0, 0, 'x', 1, 2);
    t.close(&mut lock);
    t.close(&mut lock);
    assert!(!t.is_open());
    assert_eq!(t.get_size(), (0, 0));
    assert_eq!(t.get_input_mode(), None);
    assert_eq!(t.get_output_mode(), None);
    // Mutations on a closed session change nothing.
    let before: Vec<Cell> = t.cell_buffer().clone();
    t.change_cell(0, 0, 'y', 3, 4);
    t.put_cell(1, 1, Cell { ch: 'z', fg: 5, bg: 6 });
    t.put_str(0, 0, "gone", 0, 0);
    t.blit(0, 0, 1, 1, &[Cell { ch: 'q', fg: 0, bg: 0 }]);
    t.clear();
    t.set_input_mode(InputMode::Alt);
    t.set_mouse_enabled(true);
    t.set_output_mode(OutputMode::Color256);
    assert_eq!(t.cell_buffer(), &before);
    assert_eq!(t.get_input_mode(), None);
    assert!(!t.is_mouse_enabled());
}

#[test]
fn mouse_toggle_is_independent_of_input_mode() {
    let mut lock = Lock::new();
    let mut t = open_80x24(&mut lock);
    // Enabling the mouse twice in a row keeps it enabled and keeps the mode.
    t.set_mouse_enabled(true);
    t.set_mouse_enabled(true);
    assert!(t.is_mouse_enabled());
    assert_eq!(t.input_mode(), InputMode::Esc);
    // Switching Esc/Alt never disables an enabled mouse.
    t.set_input_mode(InputMode::Alt);
    assert!(t.is_mouse_enabled());
    assert_eq!(t.input_mode(), InputMode::Alt);
    t.set_input_mode(InputMode::Esc);
    assert!(t.is_mouse_enabled());
    assert_eq!(t.input_mode(), InputMode::Esc);
    // Toggling the mouse never changes the Esc/Alt selection.
    t.set_input_mode(InputMode::Alt);
    t.set_mouse_enabled(false);
    assert_eq!(t.input_mode(), InputMode::Alt);
    t.set_mouse_enabled(true);
    assert_eq!(t.input_mode(), InputMode::Alt);
}

#[test]
fn clear_uses_the_chosen_attributes() {
    let mut lock = Lock::new();
    let mut t = open_80x24(&mut lock);
    t.set_clear_attributes(7, 1);
    t.clear();
    assert_eq!(cell(&t, 0, 0), Cell { ch: ' ', fg: 7, bg: 1 });
    assert_eq!(cell(&t, 79, 23), Cell { ch: ' ', fg: 7, bg: 1 });
}

#[test]
fn change_cell_and_put_cell_write_in_bounds_only() {
    let mut lock = Lock::new();
    let mut t = open_80x24(&mut lock);
    t.change_cell(3, 2, 'x', 1, 2);
    assert_eq!(cell(&t, 3, 2), Cell { ch: 'x', fg: 1, bg: 2 });
    t.put_cell(0, 23, Cell { ch: 'y', fg: 3, bg: 4 });
    assert_eq!(cell(&t, 0, 23), Cell { ch: 'y', fg: 3, bg: 4 });
    let before: Vec<Cell> = t.cell_buffer().clone();
    t.change_cell(80, 0, 'z', 0, 0);
    t.change_cell(0, 24, 'z', 0, 0);
    t.put_cell(-1, 0, Cell { ch: 'z', fg: 0, bg: 0 });
    assert_eq!(t.cell_buffer(), &before);
}

#[test]
fn put_str_writes_a_row_without_wrapping() {
    let mut lock = Lock::new();
    let mut t = Termbox::open(&mut lock, 0, 5, 3).unwrap();
    t.put_str(3, 1, "abc", 2, 0);
    assert_eq!(cell(&t, 3, 1), Cell { ch: 'a', fg: 2, bg: 0 });
    assert_eq!(cell(&t, 4, 1), Cell { ch: 'b', fg: 2, bg: 0 });
    // The third character falls off the right edge; nothing wraps.
    assert_eq!(cell(&t, 0, 2), Cell::default());
    assert_eq!(cell(&t, 0, 1), Cell::default());
    // A negative start clips the head of the string.
    t.put_str(-1, 0, "xyz", 1, 1);
    assert_eq!(cell(&t, 0, 0), Cell { ch: 'y', fg: 1, bg: 1 });
    assert_eq!(cell(&t, 1, 0), Cell { ch: 'z', fg: 1, bg: 1 });
    assert_eq!(cell(&t, 2, 0), Cell::default());
}

#[test]
fn blit_through_the_session_clips() {
    let mut lock = Lock::new();
    let mut t = Termbox::open(&mut lock, 0, 10, 5).unwrap();
    let src: Vec<Cell> = (0..5u16).map(|i| Cell { ch: 'A', fg: i, bg: 0 }).collect();
    t.blit(-2, 0, 5, 1, &src);
    assert_eq!(cell(&t, 0, 0), Cell { ch: 'A', fg: 2, bg: 0 });
    assert_eq!(cell(&t, 1, 0), Cell { ch: 'A', fg: 3, bg: 0 });
    assert_eq!(cell(&t, 2, 0), Cell { ch: 'A', fg: 4, bg: 0 });
    assert_eq!(cell(&t, 3, 0), Cell::default());
    // Degenerate and fully-outside rectangles are no-ops.
    let before: Vec<Cell> = t.cell_buffer().clone();
    t.blit(0, 0, 0, 3, &[]);
    t.blit(0, 0, 3, 0, &[]);
    t.blit(10, 0, 2, 2, &src[0..4]);
    t.blit(0, 5, 2, 2, &src[0..4]);
    assert_eq!(t.cell_buffer(), &before);
}

#[test]
fn cursor_moves_and_hides() {
    let mut lock = Lock::new();
    let mut t = open_80x24(&mut lock);
    t.set_cursor(10, 10);
    t.hide_cursor();
    t.set_cursor(3, 4);
    assert!(t.is_open());
}

#[test]
fn resize_takes_new_dimensions_and_clears() {
    let mut lock = Lock::new();
    let mut t = open_80x24(&mut lock);
    t.set_clear_attributes(6, 3);
    t.set_input_mode(InputMode::Alt);
    t.set_mouse_enabled(true);
    t.put_str(0, 0, "old", 1, 1);
    t.resize(132, 43);
    assert_eq!(t.get_size(), (132, 43));
    assert_eq!(t.cell_buffer().len(), 132 * 43);
    assert_eq!(cell(&t, 0, 0), Cell { ch: ' ', fg: 6, bg: 3 });
    assert_eq!(cell(&t, 131, 42), Cell { ch: ' ', fg: 6, bg: 3 });
    // Modes survive a resize.
    assert_eq!(t.input_mode(), InputMode::Alt);
    assert!(t.is_mouse_enabled());
}

#[test]
fn poll_event_decodes_or_fails_hard() {
    let mut lock = Lock::new();
    let mut t = open_80x24(&mut lock);
    // A driver error, and the illegitimate "no event", are hard failures.
    let zeroed = tb_event::default();
    assert_eq!(t.poll_event(-2, &zeroed).unwrap_err(), EventError::Driver(-2));
    assert_eq!(t.poll_event(0, &zeroed).unwrap_err(), EventError::Driver(0));
    // A well-formed record decodes.
    let ev = t.poll_event(1, &key_record(KEY_ESC, 0x1b, 0)).unwrap();
    assert!(matches!(ev, Event::Key(k) if k.key == KEY_ESC));
    // A record of unknown kind is a distinct hard failure.
    let mut bad = tb_event::default();
    bad.kind = 9;
    assert_eq!(t.poll_event(1, &bad).unwrap_err(), EventError::UnknownEventKind(9));
    // So is a mouse record with an unknown button.
    let mouse = tb_event { kind: 3, mods: 0, key: 77, ch: 0, w: 0, h: 0, x: 1, y: 1 };
    assert_eq!(t.poll_event(1, &mouse).unwrap_err(), EventError::UnknownMouseButton(77));
}

#[test]
fn peek_event_treats_timeout_as_normal() {
    let mut lock = Lock::new();
    let mut t = open_80x24(&mut lock);
    let zeroed = tb_event::default();
    // No event within the window is a normal outcome, not an error.
    assert_eq!(t.peek_event(0, &zeroed).unwrap(), None);
    // A negative driver return is a hard failure.
    assert_eq!(t.peek_event(-1, &zeroed).unwrap_err(), EventError::Driver(-1));
    // An arrived event decodes.
    let got = t.peek_event(1, &key_record(9, 0x09, 0)).unwrap();
    assert!(matches!(got, Some(Event::Key(k)) if k.ch == Some('\t')));
    // A closed session has nothing to report.
    t.close(&mut lock);
    assert_eq!(t.peek_event(1, &key_record(9, 0x09, 0)).unwrap(), None);
}

#[test]
fn end_to_end_key_press() {
    // Open a session on an 80x24 terminal, clear, write "Hi" at (0, 0),
    // present, then poll a key record carrying the escape key.
    let mut lock = Lock::new();
    let mut t = open_80x24(&mut lock);
    t.clear();
    t.put_str(0, 0, "Hi", 0, 0);
    t.present();
    assert_eq!(cell(&t, 0, 0), Cell { ch: 'H', fg: 0, bg: 0 });
    assert_eq!(cell(&t, 1, 0), Cell { ch: 'i', fg: 0, bg: 0 });
    assert_eq!(cell(&t, 2, 0), Cell { ch: ' ', fg: 0, bg: 0 });
    let ev = t.poll_event(1, &key_record(KEY_ESC, 0x1b, 0)).unwrap();
    match ev {
        Event::Key(k) => {
            assert_eq!(k.key, KEY_ESC);
            assert_eq!(k.ch, Some('\u{1b}'));
            assert!(!k.alt);
        },
        other => panic!("expected a key event, got {other:?}"),
    }
    t.close(&mut lock);
}

#[test]
fn test() {
    let mut lock = Lock::new();
    let mut termbox;
    match Termbox::new(&mut lock, 0, 80, 24) {
        Ok(t) => {
            termbox = t;
        },
        Err(err) => {
            panic!("can't initialize termbox: {}", err);
        },
    }

    termbox.clear();
    termbox.put_str(0, 0, "Press any key...", 0, 0);
    termbox.present();

    let records = [
        tb_event { kind: 2, mods: 0, key: 0, ch: 0, w: 80, h: 24, x: 0, y: 0 },
        key_record(0, 0x61, 0),
    ];
    let mut i = 0;
    loop {
        match termbox.poll_event(1, &records[i]) {
            Ok(event) => {
                match event {
                    Event::Key(_) => {
                        break;
                    },
                    _ => {},
                }
            },
            Err(err) => {
                panic!("poll failed: {:?}", err);
            },
        }
        i += 1;
    }
}
