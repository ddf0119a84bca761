use termedit::buffer::Buffer;
use termedit::line::Line;
use termedit::view::Location;

fn text(line: &Line) -> String {
    line.fragments.iter().map(|f| f.grapheme.as_str()).collect()
}

fn texts(buffer: &Buffer) -> Vec<String> {
    buffer.lines.iter().map(text).collect()
}

fn at(line_index: usize, grapheme_index: usize) -> Location {
    Location { line_index, grapheme_index }
}

#[test]
fn construct_splits_lines() {
    let b = Buffer::new("one\ntwo\r\nthree\n".to_string());
    assert_eq!(texts(&b), vec!["one", "two", "three"]);
    assert_eq!(b.line_count(), 3);
}

#[test]
fn construct_keeps_inner_empty_lines() {
    let b = Buffer::new("a\n\nb".to_string());
    assert_eq!(texts(&b), vec!["a", "", "b"]);
    let c = Buffer::new("\n".to_string());
    assert_eq!(texts(&c), vec![""]);
}

#[test]
fn construct_empty_gives_one_empty_line() {
    let b = Buffer::new(String::new());
    assert_eq!(b.line_count(), 1);
    assert_eq!(b.lines[0].grapheme_count(), 0);
}

#[test]
fn default_buffer_greets() {
    let b = Buffer::default();
    assert_eq!(texts(&b), vec!["Hello, World!"]);
}

#[test]
fn insert_char_splices_and_resegments() {
    let mut b = Buffer::new("ac".to_string());
    b.insert_char('b', at(0, 1));
    assert_eq!(texts(&b), vec!["abc"]);
    b.insert_char('d', at(0, 3));
    assert_eq!(texts(&b), vec!["abcd"]);
    b.insert_char('\u{301}', at(0, 1));
    assert_eq!(b.lines[0].grapheme_count(), 4);
}

#[test]
fn insert_char_past_last_line_appends_a_line() {
    let mut b = Buffer::new("a".to_string());
    b.insert_char('z', at(1, 0));
    assert_eq!(texts(&b), vec!["a", "z"]);
    b.insert_char('y', at(5, 0));
    b.insert_char('y', at(0, 9));
    assert_eq!(texts(&b), vec!["a", "z"]);
}

#[test]
fn insert_then_delete_restores_text() {
    let original = Buffer::new("hello\nworld".to_string());
    for (line, col) in [(0, 0), (0, 3), (0, 5), (1, 2)] {
        let mut b = original.clone();
        b.insert_char('x', at(line, col));
        b.delete(at(line, col));
        assert_eq!(texts(&b), texts(&original));
    }
}

#[test]
fn delete_removes_one_unit() {
    let mut b = Buffer::new("a日b".to_string());
    b.delete(at(0, 1));
    assert_eq!(texts(&b), vec!["ab"]);
}

#[test]
fn delete_at_line_end_merges_next_line() {
    let mut b = Buffer::new("ab\ncd\nef".to_string());
    b.delete(at(0, 2));
    assert_eq!(texts(&b), vec!["abcd", "ef"]);
    b.delete(at(0, 7));
    assert_eq!(texts(&b), vec!["abcdef"]);
}

#[test]
fn delete_at_document_end_is_a_no_op() {
    let mut b = Buffer::new("ab".to_string());
    b.delete(at(0, 2));
    b.delete(at(3, 0));
    assert_eq!(texts(&b), vec!["ab"]);
}

#[test]
fn split_returns_tail() {
    let mut b = Buffer::new("hello".to_string());
    let tail = b.split(0, 2);
    assert_eq!(text(&tail), "llo");
    assert_eq!(texts(&b), vec!["he"]);
    let none = b.split(0, 9);
    assert_eq!(none.grapheme_count(), 0);
    let none = b.split(4, 0);
    assert_eq!(none.grapheme_count(), 0);
    assert_eq!(texts(&b), vec!["he"]);
}

#[test]
fn new_line_inserts_after_or_appends() {
    let mut b = Buffer::new("a\nb".to_string());
    b.new_line(0, None);
    assert_eq!(texts(&b), vec!["a", "", "b"]);
    b.new_line(10, Some(Line::from("z")));
    assert_eq!(texts(&b), vec!["a", "", "b", "z"]);
}

#[test]
fn insert_newline_splits_line() {
    let mut b = Buffer::new("abcd".to_string());
    b.insert_newline(at(0, 1));
    assert_eq!(texts(&b), vec!["a", "bcd"]);
    b.insert_newline(at(1, 3));
    assert_eq!(texts(&b), vec!["a", "bcd", ""]);
    b.insert_newline(at(9, 0));
    assert_eq!(texts(&b), vec!["a", "bcd", "", ""]);
}
