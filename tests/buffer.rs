use rusted::action::InsertModeTextAddInfo;
use rusted::buffer::Buffer;

fn buf(text: &str) -> Buffer {
    Buffer::new(Some("notes.txt".to_string()), Some(text.to_string()))
}

#[test]
fn new_splits_lines() {
    let b = buf("alpha\nbeta\r\ngamma\n");
    assert_eq!(b.lines, vec!["alpha", "beta", "gamma"]);
    assert_eq!(b.file.as_deref(), Some("notes.txt"));
}

#[test]
fn new_keeps_inner_blank_lines_and_lone_carriage_returns() {
    let b = buf("a\n\nb\r");
    assert_eq!(b.lines, vec!["a", "", "b\r"]);
    let one = buf("\n");
    assert_eq!(one.lines, vec![""]);
}

#[test]
fn new_without_file_or_text_is_empty() {
    assert!(Buffer::new(None, Some("ignored".to_string())).lines.is_empty());
    assert!(buf("").lines.is_empty());
}

#[test]
fn get_in_and_out_of_range() {
    let b = buf("alpha\nbeta");
    assert_eq!(b.get(1), Some("beta".to_string()));
    assert_eq!(b.get(2), None);
}

#[test]
fn insert_char_at_column() {
    let mut b = buf("helo\nx");
    b.insert_char(3, 0, 'l');
    b.insert_char(1, 1, '!');
    assert_eq!(b.lines, vec!["hello", "x!"]);
    b.insert_char(0, 5, 'z');
    assert_eq!(b.lines, vec!["hello", "x!"]);
}

#[test]
fn insert_char_counts_characters_not_bytes() {
    let mut b = buf("héllo");
    b.insert_char(2, 0, 'X');
    assert_eq!(b.lines, vec!["héXllo"]);
}

#[test]
fn delete_char_and_out_of_range_no_op() {
    let mut b = buf("hello");
    b.delete_char(0, 0);
    assert_eq!(b.lines, vec!["ello"]);
    b.delete_char(4, 0);
    b.delete_char(0, 3);
    assert_eq!(b.lines, vec!["ello"]);
}

#[test]
fn delete_and_restore_line() {
    let mut b = buf("alpha\nbeta\ngamma");
    let gone = b.delete_line(1);
    assert_eq!(gone, "beta");
    assert_eq!(b.lines, vec!["alpha", "gamma"]);
    b.restore_line(gone, 1);
    assert_eq!(b.lines, vec!["alpha", "beta", "gamma"]);
}

#[test]
fn insert_line_adds_empty_line() {
    let mut b = buf("alpha");
    b.insert_line(1);
    b.insert_line(0);
    assert_eq!(b.lines, vec!["", "alpha", ""]);
}

#[test]
fn remove_insert_changes_keeps_rest_of_line() {
    let mut b = buf("abcXYZdef");
    b.remove_insert_changes(InsertModeTextAddInfo { index: (3, 5), line_no: 0 });
    assert_eq!(b.lines, vec!["abcdef"]);
}

#[test]
fn remove_insert_changes_drops_blank_line() {
    let mut b = buf("one\n  hi \ntwo");
    b.remove_insert_changes(InsertModeTextAddInfo { index: (2, 3), line_no: 1 });
    assert_eq!(b.lines, vec!["one", "two"]);
}

#[test]
fn viewport_buf_joins_visible_lines() {
    let b = buf("a\nb\nc\nd");
    assert_eq!(b.viewport_buf(1, 2), "b\nc");
    assert_eq!(b.viewport_buf(2, 10), "c\nd");
    assert_eq!(b.viewport_buf(4, 3), "");
}
