use rusted::action::{Action, Mode};
use rusted::buffer::Buffer;
use rusted::editor::Editor;
use rusted::keys::{InputEvent, KeyCode, KeyPress};

fn editor(text: &str, size: (u16, u16)) -> Editor {
    Editor::new(Buffer::new(Some("f.txt".to_string()), Some(text.to_string())), size)
}

fn empty_editor() -> Editor {
    Editor::new(Buffer::new(None, None), (40, 10))
}

fn key(c: char) -> InputEvent {
    InputEvent::Key(KeyPress { code: KeyCode::Char(c), ctrl: false })
}

fn ctrl(c: char) -> InputEvent {
    InputEvent::Key(KeyPress { code: KeyCode::Char(c), ctrl: true })
}

fn special(code: KeyCode) -> InputEvent {
    InputEvent::Key(KeyPress { code, ctrl: false })
}

fn keys(e: &mut Editor, s: &str) {
    for c in s.chars() {
        e.process_event(key(c));
    }
}

fn lines(e: &Editor) -> Vec<String> {
    e.buffer().lines.clone()
}

fn line_of_cursor(e: &Editor) -> u16 {
    e.get_buf_line()
}

fn numbered(n: usize) -> String {
    (0..n).map(|i| format!("line {i}")).collect::<Vec<_>>().join("\n")
}

#[test]
fn new_editor_layout() {
    let e = editor("alpha\nbeta\ngamma", (80, 24));
    assert_eq!(e.vleft(), 3);
    assert_eq!(e.cursor(), (3, 0));
    assert_eq!(e.vheight(), 22);
    assert_eq!(e.vwidth(), 80);
    assert_eq!(e.mode(), Mode::Normal);
    assert_eq!(e.get_mode(), "Normal");
    assert_eq!(e.gutter_width(), 2);
    let big = editor(&numbered(120), (80, 24));
    assert_eq!(big.vleft(), 5);
}

#[test]
fn delete_line_then_undo_scenario() {
    let mut e = editor("alpha\nbeta\ngamma", (80, 24));
    keys(&mut e, "j");
    assert_eq!(line_of_cursor(&e), 1);
    e.handle_action(&Some(Action::DeleteFullLine));
    assert_eq!(lines(&e), vec!["alpha", "gamma"]);
    assert_eq!(e.undo_len(), 1);
    e.handle_action(&Some(Action::Undo));
    assert_eq!(lines(&e), vec!["alpha", "beta", "gamma"]);
    assert_eq!(line_of_cursor(&e), 1);
    assert_eq!(e.undo_len(), 0);
}

#[test]
fn dd_and_u_keys_restore_last_line() {
    let mut e = editor("alpha\nbeta\ngamma", (80, 24));
    keys(&mut e, "G");
    assert_eq!(line_of_cursor(&e), 2);
    keys(&mut e, "dd");
    assert_eq!(lines(&e), vec!["alpha", "beta"]);
    assert_eq!(line_of_cursor(&e), 1);
    keys(&mut e, "u");
    assert_eq!(lines(&e), vec!["alpha", "beta", "gamma"]);
    assert_eq!(line_of_cursor(&e), 2);
}

#[test]
fn insert_line_below_on_empty_buffer_scenario() {
    let mut e = empty_editor();
    e.process_event(key('o'));
    assert_eq!(e.mode(), Mode::Insert);
    keys(&mut e, "hi");
    e.process_event(special(KeyCode::Esc));
    assert_eq!(lines(&e), vec!["", "hi"]);
    assert_eq!(e.mode(), Mode::Normal);
    assert_eq!(e.undo_len(), 1);
}

#[test]
fn insert_then_undo_removes_typed_text() {
    let mut e = editor("hello world", (80, 24));
    assert_eq!(e.cursor().0, 3);
    keys(&mut e, "i");
    keys(&mut e, "abc");
    assert_eq!(lines(&e), vec!["abchello world"]);
    e.process_event(special(KeyCode::Esc));
    keys(&mut e, "u");
    assert_eq!(lines(&e), vec!["hello world"]);
    assert_eq!(e.cursor().0, 3);
}

#[test]
fn insert_mid_line_then_undo() {
    let mut e = editor("hello world", (80, 24));
    keys(&mut e, "lllll");
    keys(&mut e, "i,");
    e.process_event(special(KeyCode::Esc));
    assert_eq!(lines(&e), vec!["hello, world"]);
    keys(&mut e, "u");
    assert_eq!(lines(&e), vec!["hello world"]);
    assert_eq!(e.cursor().0, 8);
}

#[test]
fn undo_of_text_on_blank_line_removes_the_line() {
    let mut e = editor("one\ntwo", (80, 24));
    keys(&mut e, "o");
    keys(&mut e, "new");
    e.process_event(special(KeyCode::Esc));
    assert_eq!(lines(&e), vec!["one", "new", "two"]);
    keys(&mut e, "u");
    assert_eq!(lines(&e), vec!["one", "two"]);
}

#[test]
fn move_right_stops_at_last_character() {
    let mut e = editor("abc\n", (80, 24));
    for _ in 0..10 {
        e.handle_action(&Some(Action::MoveRight));
    }
    assert_eq!(e.cursor().0, 3 + 2);
    assert!(e.get_line_length() == 6);
}

#[test]
fn move_right_on_empty_line_stays_at_first_cell() {
    let mut e = editor("\nx", (80, 24));
    for _ in 0..4 {
        e.process_event(key('l'));
    }
    assert_eq!(e.cursor().0, e.vleft());
}

#[test]
fn move_right_never_passes_screen_edge() {
    let long = "x".repeat(100);
    let mut e = editor(&long, (20, 10));
    for _ in 0..50 {
        e.process_event(special(KeyCode::Right));
    }
    assert_eq!(e.cursor().0, 19);
}

#[test]
fn move_left_stops_at_gutter() {
    let mut e = editor("abc", (80, 24));
    keys(&mut e, "ll");
    keys(&mut e, "hhhh");
    assert_eq!(e.cursor().0, e.vleft());
}

#[test]
fn gg_from_scrolled_view() {
    let mut e = editor(&numbered(50), (40, 12));
    keys(&mut e, "G");
    assert_eq!(e.vtop(), 40);
    assert_eq!(line_of_cursor(&e), 49);
    keys(&mut e, "gg");
    assert_eq!(e.vtop(), 0);
    assert_eq!(e.cursor().1, 0);
}

#[test]
fn capital_g_on_short_buffer() {
    let mut e = editor("a\nb\nc", (40, 12));
    keys(&mut e, "G");
    assert_eq!(e.vtop(), 0);
    assert_eq!(e.cursor().1, 2);
}

#[test]
fn undo_with_empty_log_changes_nothing() {
    let mut e = editor("alpha\nbeta", (80, 24));
    keys(&mut e, "jl");
    let before = (lines(&e), e.cursor(), e.vtop());
    keys(&mut e, "u");
    assert_eq!((lines(&e), e.cursor(), e.vtop()), before);
    keys(&mut e, "u");
    assert_eq!((lines(&e), e.cursor(), e.vtop()), before);
}

#[test]
fn move_down_scrolls_at_bottom_and_stops_at_end() {
    let mut e = editor(&numbered(10), (40, 6));
    for _ in 0..5 {
        e.process_event(key('j'));
    }
    assert_eq!(e.vtop(), 2);
    assert_eq!(e.cursor().1, 3);
    for _ in 0..10 {
        e.process_event(special(KeyCode::Down));
    }
    assert_eq!(line_of_cursor(&e), 9);
    assert_eq!(e.vtop(), 6);
    e.process_event(key('k'));
    assert_eq!(line_of_cursor(&e), 8);
}

#[test]
fn move_up_scrolls_at_top() {
    let mut e = editor(&numbered(10), (40, 6));
    keys(&mut e, "G");
    assert_eq!(e.vtop(), 6);
    for _ in 0..3 {
        e.process_event(special(KeyCode::Up));
    }
    assert_eq!(e.vtop(), 6);
    assert_eq!(line_of_cursor(&e), 6);
    e.process_event(key('k'));
    assert_eq!(e.vtop(), 5);
    assert_eq!(e.cursor().1, 0);
}

#[test]
fn page_down_and_up() {
    let mut e = editor(&numbered(30), (40, 12));
    e.process_event(ctrl('f'));
    assert_eq!(e.vtop(), 10);
    e.process_event(ctrl('f'));
    assert_eq!(e.vtop(), 20);
    assert_eq!(line_of_cursor(&e), 20);
    let mut short = editor(&numbered(25), (40, 12));
    short.process_event(ctrl('f'));
    short.process_event(ctrl('f'));
    assert_eq!(short.vtop(), 20);
    assert_eq!(line_of_cursor(&short), 24);
    e.process_event(ctrl('b'));
    assert_eq!(e.vtop(), 10);
    e.process_event(ctrl('b'));
    assert_eq!(e.vtop(), 0);
    assert_eq!(e.cursor().1, 0);
    e.process_event(key('f'));
    assert_eq!(e.vtop(), 0);
}

#[test]
fn center_line_with_zz() {
    let mut e = editor(&numbered(30), (40, 12));
    for _ in 0..15 {
        e.process_event(key('j'));
    }
    keys(&mut e, "zz");
    assert_eq!(line_of_cursor(&e), 15);
    assert_eq!(e.vtop(), 10);
    assert_eq!(e.cursor().1, 5);
}

#[test]
fn end_and_start_of_line() {
    let mut e = editor("hello", (80, 24));
    keys(&mut e, "$");
    assert_eq!(e.cursor().0, 3 + 4);
    keys(&mut e, "0");
    assert_eq!(e.cursor().0, 3);
}

#[test]
fn x_deletes_under_cursor() {
    let mut e = editor("hello", (80, 24));
    keys(&mut e, "lx");
    assert_eq!(lines(&e), vec!["hllo"]);
    keys(&mut e, "$x");
    assert_eq!(lines(&e), vec!["hll"]);
}

#[test]
fn backspace_in_insert_mode() {
    let mut e = editor("abc", (80, 24));
    keys(&mut e, "$");
    keys(&mut e, "i");
    e.process_event(special(KeyCode::Backspace));
    assert_eq!(lines(&e), vec!["ac"]);
    e.process_event(special(KeyCode::Backspace));
    e.process_event(special(KeyCode::Backspace));
    assert_eq!(lines(&e), vec!["c"]);
    assert_eq!(e.cursor().0, e.vleft());
}

#[test]
fn typing_at_last_column_is_ignored() {
    let mut e = editor("", (6, 5));
    assert_eq!(e.vleft(), 3);
    keys(&mut e, "i");
    keys(&mut e, "abcd");
    assert_eq!(lines(&e), vec!["ab"]);
    assert_eq!(e.cursor().0, 5);
}

#[test]
fn waiting_key_is_cancelled_by_other_key() {
    let mut e = editor("alpha\nbeta", (80, 24));
    let a = e.handle_event(key('d'));
    assert_eq!(a, Some(Action::EnterWaitingMode('d')));
    e.handle_action(&a);
    assert_eq!(e.waiting_cmd(), Some('d'));
    let b = e.handle_event(key('x'));
    assert_eq!(b, None);
    assert_eq!(e.waiting_cmd(), None);
    keys(&mut e, "x");
    assert_eq!(lines(&e), vec!["lpha", "beta"]);
}

#[test]
fn key_tables() {
    let mut e = editor("alpha", (80, 24));
    assert_eq!(e.handle_event(key('q')), Some(Action::Quit));
    assert_eq!(e.handle_event(key('i')), Some(Action::EnterMode(Mode::Insert)));
    assert_eq!(e.handle_event(special(KeyCode::Left)), Some(Action::MoveLeft));
    assert_eq!(e.handle_event(key('w')), None);
    assert_eq!(e.handle_event(InputEvent::Other), None);
    keys(&mut e, "i");
    assert_eq!(e.handle_event(key('q')), Some(Action::InsertCharCursorPos('q')));
    assert_eq!(e.handle_event(special(KeyCode::Esc)), Some(Action::EnterMode(Mode::Normal)));
    assert_eq!(e.handle_event(special(KeyCode::Up)), None);
}

#[test]
fn quit_is_reported() {
    let mut e = editor("alpha", (80, 24));
    assert!(!e.process_event(key('j')));
    assert!(e.process_event(key('q')));
}

#[test]
fn resize_keeps_cursor_on_screen() {
    let mut e = editor(&numbered(30), (40, 24));
    for _ in 0..15 {
        e.process_event(key('j'));
    }
    keys(&mut e, "$");
    e.process_event(InputEvent::Resize(6, 7));
    assert_eq!(e.vheight(), 5);
    assert_eq!(e.size(), (6, 7));
    assert_eq!(line_of_cursor(&e), 15);
    assert_eq!(e.cursor(), (5, 4));
    e.process_event(InputEvent::Resize(2, 2));
    assert_eq!(e.size(), (6, 7));
}

#[test]
fn status_line_and_viewport_text() {
    let mut e = editor("alpha\nbeta\ngamma", (30, 4));
    keys(&mut e, "jl");
    let s = e.status_line();
    assert_eq!(s.mode, "NORMAL");
    assert_eq!(s.pos, " 4:1 ");
    assert_eq!(s.file, format!("{:<17}", " f.txt "));
    let mut fresh = editor("alpha\nbeta\ngamma", (30, 4));
    keys(&mut fresh, "j");
    assert_eq!(fresh.status_line().pos, " 3:1 ");
    assert_eq!(e.viewport_text(), "alpha\nbeta");
}

#[test]
fn leaving_insert_left_of_entry_pushes_an_empty_record() {
    let mut e = editor("hello world", (80, 24));
    keys(&mut e, "lllll");
    keys(&mut e, "i");
    e.process_event(special(KeyCode::Backspace));
    e.process_event(special(KeyCode::Esc));
    assert_eq!(lines(&e), vec!["hell world"]);
    assert_eq!(e.undo_len(), 1);
    let cursor = e.cursor();
    keys(&mut e, "u");
    assert_eq!(e.undo_len(), 0);
    assert_eq!(lines(&e), vec!["hell world"]);
    assert_eq!(e.cursor(), cursor);
}

#[test]
fn leaving_insert_at_gutter_after_backspace() {
    let mut e = editor("ab", (80, 24));
    keys(&mut e, "l");
    keys(&mut e, "i");
    e.process_event(special(KeyCode::Backspace));
    e.process_event(special(KeyCode::Esc));
    assert_eq!(lines(&e), vec!["b"]);
    assert_eq!(e.undo_len(), 1);
    keys(&mut e, "u");
    assert_eq!(lines(&e), vec!["b"]);
}

#[test]
fn typing_into_empty_buffer_creates_first_line() {
    let mut e = empty_editor();
    keys(&mut e, "i");
    keys(&mut e, "ok");
    e.process_event(special(KeyCode::Esc));
    assert_eq!(lines(&e), vec!["ok"]);
    keys(&mut e, "u");
    assert!(lines(&e).is_empty());
}
