use termedit::command::{Direction, InputEvent, Key, SpecialKey, TerminalCommand};
use termedit::terminal::Terminal;
use termedit::view::{Location, Position, Size};

fn texts(t: &Terminal) -> Vec<String> {
    t.buffer
        .lines
        .iter()
        .map(|l| l.fragments.iter().map(|f| f.grapheme.as_str()).collect())
        .collect()
}

fn at(line_index: usize, grapheme_index: usize) -> Location {
    Location { line_index, grapheme_index }
}

fn session(text: &str, width: usize, height: usize) -> Terminal {
    Terminal::new(text.to_string(), Size { width, height })
}

#[test]
fn enter_type_backspace_scenario() {
    let mut t = session("ab", 80, 24);
    t.location = at(0, 2);
    t.handle_special_key(SpecialKey::Enter);
    assert_eq!(texts(&t), vec!["ab", ""]);
    assert_eq!(t.location, at(1, 0));
    t.handle_ordinary_typing(Some('x'));
    assert_eq!(texts(&t), vec!["ab", "x"]);
    assert_eq!(t.location, at(1, 1));
    t.handle_special_key(SpecialKey::Backspace);
    assert_eq!(texts(&t), vec!["ab", ""]);
    assert_eq!(t.location, at(1, 0));
    t.handle_special_key(SpecialKey::Backspace);
    assert_eq!(texts(&t), vec!["ab"]);
    assert_eq!(t.location, at(0, 2));
}

#[test]
fn moving_down_scrolls_to_keep_caret_on_last_row() {
    let text: Vec<String> = (0..50).map(|i| format!("line {i}")).collect();
    let mut t = session(&text.join("\n"), 80, 10);
    assert_eq!(t.buffer.line_count(), 50);
    for _ in 0..12 {
        t.move_caret_to_location(Direction::Down);
    }
    assert_eq!(t.location.line_index, 12);
    assert_eq!(t.scroll_offset.line_index, 3);
    assert_eq!(t.get_position(), Position { x: 0, y: 9 });
}

#[test]
fn left_at_origin_stays() {
    let mut t = session("ab\ncd", 80, 24);
    t.move_caret_to_location(Direction::Left);
    assert_eq!(t.location, at(0, 0));
}

#[test]
fn right_at_document_end_stays() {
    let mut t = session("ab\ncd", 80, 24);
    t.location = at(1, 2);
    t.move_caret_to_location(Direction::Right);
    assert_eq!(t.location, at(1, 2));
}

#[test]
fn backspace_at_origin_keeps_buffer() {
    let mut t = session("ab\ncd", 80, 24);
    t.needs_render = false;
    t.handle_special_key(SpecialKey::Backspace);
    assert_eq!(texts(&t), vec!["ab", "cd"]);
    assert_eq!(t.location, at(0, 0));
    assert!(t.needs_render);
}

#[test]
fn left_and_right_wrap_between_lines() {
    let mut t = session("ab\ncd", 80, 24);
    t.location = at(0, 2);
    t.move_caret_to_location(Direction::Right);
    assert_eq!(t.location, at(1, 0));
    t.move_caret_to_location(Direction::Left);
    assert_eq!(t.location, at(0, 2));
}

#[test]
fn up_and_down_clamp_to_rendered_width() {
    let mut t = session("abcdef\n日\nxy", 80, 24);
    t.location = at(0, 5);
    t.move_caret_to_location(Direction::Down);
    assert_eq!(t.location, at(1, 2));
    t.move_caret_to_location(Direction::Down);
    assert_eq!(t.location, at(2, 2));
    t.move_caret_to_location(Direction::Up);
    t.move_caret_to_location(Direction::Up);
    assert_eq!(t.location, at(0, 2));
    t.move_caret_to_location(Direction::Up);
    assert_eq!(t.location, at(0, 2));
}

#[test]
fn home_end_and_empty_line_end() {
    let mut t = session("abcd\n", 80, 24);
    t.location = at(0, 2);
    t.move_caret_to_location(Direction::End);
    assert_eq!(t.location, at(0, 3));
    t.move_caret_to_location(Direction::Home);
    assert_eq!(t.location, at(0, 0));
    let mut e = session("", 80, 24);
    e.move_caret_to_location(Direction::End);
    assert_eq!(e.location, at(0, 0));
}

#[test]
fn page_moves_clamp_to_document() {
    let text: Vec<String> = (0..30).map(|i| i.to_string()).collect();
    let mut t = session(&text.join("\n"), 80, 10);
    t.move_caret_to_location(Direction::PageDown);
    assert_eq!(t.location.line_index, 10);
    t.move_caret_to_location(Direction::PageDown);
    t.move_caret_to_location(Direction::PageDown);
    assert_eq!(t.location.line_index, 29);
    assert_eq!(t.scroll_offset.line_index, 20);
    t.move_caret_to_location(Direction::PageUp);
    assert_eq!(t.location.line_index, 19);
    t.move_caret_to_location(Direction::PageUp);
    t.move_caret_to_location(Direction::PageUp);
    assert_eq!(t.location.line_index, 0);
    assert_eq!(t.scroll_offset.line_index, 0);
}

#[test]
fn scroll_keeps_caret_in_view_both_axes() {
    let mut t = session("0123456789abcdef\nx\ny\nz", 4, 2);
    t.location = at(3, 0);
    t.scroll_location_into_view();
    assert_eq!(t.scroll_offset, at(2, 0));
    t.location = at(0, 10);
    t.scroll_offset = at(2, 0);
    t.scroll_location_into_view();
    assert_eq!(t.scroll_offset, at(0, 7));
    t.needs_render = false;
    t.scroll_location_into_view();
    assert!(!t.needs_render);
}

#[test]
fn resize_rescrolls_and_marks_dirty() {
    let mut t = session("a\nb\nc\nd\ne", 10, 5);
    t.location = at(4, 0);
    t.needs_render = false;
    t.resize(Size { width: 10, height: 2 });
    assert_eq!(t.size(), Size { width: 10, height: 2 });
    assert_eq!(t.scroll_offset.line_index, 3);
    assert!(t.needs_render);
}

#[test]
fn typing_inserts_at_caret() {
    let mut t = session("ac", 80, 24);
    t.location = at(0, 1);
    t.handle_ordinary_typing(Some('b'));
    assert_eq!(texts(&t), vec!["abc"]);
    assert_eq!(t.location, at(0, 2));
    t.handle_ordinary_typing(None);
    assert_eq!(texts(&t), vec!["abc"]);
}

#[test]
fn delete_key_merges_next_line() {
    let mut t = session("ab\ncd", 80, 24);
    t.location = at(0, 2);
    t.handle_special_key(SpecialKey::Delete);
    assert_eq!(texts(&t), vec!["abcd"]);
    assert_eq!(t.location, at(0, 2));
}

#[test]
fn unhandled_special_keys_change_nothing() {
    let mut t = session("ab", 80, 24);
    t.needs_render = false;
    t.handle_special_key(SpecialKey::Tab);
    t.handle_special_key(SpecialKey::Insert);
    assert_eq!(texts(&t), vec!["ab"]);
    assert!(!t.needs_render);
}

#[test]
fn render_draws_frame_then_idles() {
    let mut t = session("hello\n日本", 3, 4);
    let rows = t.render().expect("a frame is due");
    assert_eq!(rows, vec!["hel", "日⋯", "~", "~"]);
    assert!(!t.needs_render);
    assert!(t.render().is_none());
}

#[test]
fn render_shows_banner_for_empty_document() {
    let mut t = session("", 20, 6);
    let rows = t.render().expect("a frame is due");
    assert_eq!(rows.len(), 6);
    assert_eq!(rows[0], "");
    assert_eq!(rows[1], "~");
    assert_eq!(rows[2], "~termedit editor -- ");
    assert_eq!(rows[3], "~");
}

#[test]
fn render_skips_zero_width_viewport() {
    let mut t = session("a", 0, 4);
    assert!(t.render().is_none());
    assert!(t.needs_render);
}

#[test]
fn welcome_message_is_centred_and_cut() {
    let wide = Terminal::build_welcome_message(60);
    assert_eq!(wide, format!("~{}termedit editor -- version 0.1.0", " ".repeat(13)));
    assert_eq!(Terminal::build_welcome_message(5), "~term");
    assert_eq!(Terminal::build_welcome_message(0), "");
}

#[test]
fn decodes_key_events() {
    let ctrl_q = InputEvent::Key { key: Key::Char('q'), control: true };
    assert_eq!(TerminalCommand::try_from(ctrl_q), Ok(TerminalCommand::Quit));
    let q = InputEvent::Key { key: Key::Char('q'), control: false };
    assert_eq!(TerminalCommand::try_from(q), Ok(TerminalCommand::OrdinaryChar('q')));
    let f5 = InputEvent::Key { key: Key::F(5), control: false };
    assert_eq!(TerminalCommand::try_from(f5), Ok(TerminalCommand::FunctionKey(5)));
    let f13 = InputEvent::Key { key: Key::F(13), control: false };
    assert_eq!(TerminalCommand::try_from(f13), Ok(TerminalCommand::Unknown));
    let up = InputEvent::Key { key: Key::Up, control: true };
    assert_eq!(TerminalCommand::try_from(up), Ok(TerminalCommand::MoveCaret(Direction::Up)));
    let bs = InputEvent::Key { key: Key::Backspace, control: false };
    assert_eq!(TerminalCommand::try_from(bs), Ok(TerminalCommand::SpecialKey(SpecialKey::Backspace)));
    let resize = InputEvent::Resize { width: 100, height: 30 };
    assert_eq!(
        TerminalCommand::try_from(resize),
        Ok(TerminalCommand::Resize(Size { width: 100, height: 30 }))
    );
    assert!(TerminalCommand::try_from(InputEvent::Other).is_err());
}

#[test]
fn evaluate_event_applies_or_quits() {
    let mut t = session("ab", 80, 24);
    let right = InputEvent::Key { key: Key::Right, control: false };
    assert_eq!(t.evaluate_event(right), Ok(false));
    assert_eq!(t.location, at(0, 1));
    let quit = InputEvent::Key { key: Key::Char('q'), control: true };
    assert_eq!(t.evaluate_event(quit), Ok(true));
    assert_eq!(t.location, at(0, 1));
    assert!(t.evaluate_event(InputEvent::Other).is_err());
    let typed = InputEvent::Key { key: Key::Char('z'), control: false };
    assert_eq!(t.evaluate_event(typed), Ok(false));
    assert_eq!(texts(&t), vec!["azb"]);
}

#[test]
fn handle_command_dispatches() {
    let mut t = session("ab", 80, 24);
    t.handle_command(TerminalCommand::MoveCaret(Direction::End));
    assert_eq!(t.location, at(0, 1));
    t.handle_command(TerminalCommand::FunctionKey(3));
    t.handle_command(TerminalCommand::Unknown);
    assert_eq!(t.location, at(0, 1));
    t.handle_command(TerminalCommand::Resize(Size { width: 5, height: 5 }));
    assert_eq!(t.size(), Size { width: 5, height: 5 });
}
