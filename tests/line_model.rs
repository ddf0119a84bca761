use termedit::line::{GraphemeWidth, Line};
use termedit::view::{Location, Position};

fn graphemes(line: &Line) -> Vec<String> {
    line.fragments.iter().map(|f| f.grapheme.clone()).collect()
}

#[test]
fn ascii_line_counts_and_width() {
    let line = Line::from("abc");
    assert_eq!(line.grapheme_count(), 3);
    assert_eq!(line.graphemes_width(), 3);
    assert_eq!(graphemes(&line), vec!["a", "b", "c"]);
}

#[test]
fn full_width_units_are_wider_than_their_count() {
    let line = Line::from("日本");
    assert_eq!(line.grapheme_count(), 2);
    assert_eq!(line.graphemes_width(), 4);
    assert!(line.fragments.iter().all(|f| f.rendered_width == GraphemeWidth::Full));
}

#[test]
fn half_width_line_width_equals_count() {
    let line = Line::from("x=1;");
    assert_eq!(line.graphemes_width(), line.grapheme_count());
    let mixed = Line::from("a日");
    assert!(mixed.graphemes_width() > mixed.grapheme_count());
}

#[test]
fn combining_sequence_is_one_unit() {
    let line = Line::from("e\u{301}x");
    assert_eq!(line.grapheme_count(), 2);
    assert_eq!(graphemes(&line)[0], "e\u{301}");
}

#[test]
fn visible_ascii_round_trips() {
    let text = "Hello,World!(x+y)*2~";
    let line = Line::from(text);
    let shown = line.get_visible_graphemes(0..line.graphemes_width());
    assert_eq!(shown, text);
}

#[test]
fn blanks_and_tabs_are_substituted() {
    let line = Line::from("a b\tc");
    assert_eq!(line.get_visible_graphemes(0..5), "a␣b c");
    assert_eq!(line.fragments[1].replacement, Some('␣'));
    assert_eq!(line.fragments[3].replacement, Some(' '));
    assert_eq!(line.fragments[0].replacement, None);
}

#[test]
fn zero_width_unit_shows_a_dot() {
    let line = Line::from("\u{200B}");
    assert_eq!(line.grapheme_count(), 1);
    assert_eq!(line.fragments[0].replacement, Some('·'));
    assert_eq!(line.fragments[0].rendered_width, GraphemeWidth::Half);
    assert_eq!(line.get_visible_graphemes(0..1), "·");
}

#[test]
fn clipped_units_show_an_ellipsis() {
    let line = Line::from("a日b");
    assert_eq!(line.get_visible_graphemes(0..2), "a⋯");
    assert_eq!(line.get_visible_graphemes(2..4), "⋯b");
    assert_eq!(line.get_visible_graphemes(1..3), "日");
    assert_eq!(line.get_visible_graphemes(3..3), "");
    assert_eq!(line.get_visible_graphemes(3..1), "");
}

#[test]
fn window_stops_at_its_end() {
    let line = Line::from("abcdef");
    assert_eq!(line.get_visible_graphemes(0..2), "ab");
    assert_eq!(line.get_visible_graphemes(2..5), "cde");
}

#[test]
fn empty_text_gives_empty_line() {
    let line = Line::from("");
    assert_eq!(line.grapheme_count(), 0);
    assert_eq!(line.graphemes_width(), 0);
    assert_eq!(Line::empty().grapheme_count(), 0);
}

#[test]
fn width_class_adds_saturating() {
    assert_eq!(GraphemeWidth::Half.saturating_add(3), 4);
    assert_eq!(GraphemeWidth::Full.saturating_add(3), 5);
    assert_eq!(GraphemeWidth::Full.saturating_add(usize::MAX - 1), usize::MAX);
}

#[test]
fn location_maps_to_position_saturating() {
    let loc = Location { line_index: 5, grapheme_index: 7 };
    let p = loc.to_position(Location { line_index: 2, grapheme_index: 3 });
    assert_eq!(p, Position { x: 4, y: 3 });
    let q = loc.to_position(Location { line_index: 9, grapheme_index: 9 });
    assert_eq!(q, Position { x: 0, y: 0 });
    assert_eq!(Position::from(loc), Position { x: 7, y: 5 });
}

#[test]
fn substituted_units_are_half_width() {
    let line = Line::from("a\u{3000}b\tc");
    assert_eq!(line.fragments[1].replacement, Some('␣'));
    assert_eq!(line.fragments[1].rendered_width, GraphemeWidth::Half);
    assert_eq!(line.fragments[3].replacement, Some(' '));
    assert_eq!(line.fragments[3].rendered_width, GraphemeWidth::Half);
    assert_eq!(line.graphemes_width(), 5);
    assert_eq!(line.get_visible_graphemes(0..5), "a␣b c");
}
