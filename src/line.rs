//! The grapheme line model: a line of text as a sequence of rendered units.
use crate::text::{
    chars_of, display_width, grapheme_clusters, is_printable_ascii, joined, is_graphic_ascii, lemma_joined_pieces_graphic,
    split_graphemes, str_width, string_of,
};
use std::ops::Range;
use vstd::prelude::*;

verus! {

/// `n` clamped to the range of `usize`.
pub open spec fn sat(n: int) -> usize {
    if n > usize::MAX {
        usize::MAX
    } else if n < 0 {
        0
    } else {
        n as usize
    }
}

/// General category Cc, as `char::is_control` reports it.
pub open spec fn is_control_char(c: char) -> bool {
    let v = c as u32;
    v <= 0x1f || (0x7f <= v && v <= 0x9f)
}

/// The Unicode `White_Space` property, as `char::is_whitespace` reports it.
pub open spec fn is_white_space(c: char) -> bool {
    let v = c as u32;
    (0x09 <= v && v <= 0x0d) || v == 0x20 || v == 0x85 || v == 0xa0 || v == 0x1680 || (0x2000 <= v
        && v <= 0x200a) || v == 0x2028 || v == 0x2029 || v == 0x202f || v == 0x205f || v == 0x3000
}

pub open spec fn all_tabs(g: Seq<char>) -> bool {
    forall|i: int| 0 <= i < g.len() ==> #[trigger] g[i] == '\t'
}

pub open spec fn all_blank(g: Seq<char>) -> bool {
    forall|i: int| 0 <= i < g.len() ==> is_white_space(#[trigger] g[i])
}

pub open spec fn all_control(g: Seq<char>) -> bool {
    forall|i: int| 0 <= i < g.len() ==> is_control_char(#[trigger] g[i])
}

/// The two width classes: a measured width of 0 or 1 is half, wider is full.
pub open spec fn width_class(w: nat) -> GraphemeWidth {
    if w <= 1 {
        GraphemeWidth::Half
    } else {
        GraphemeWidth::Full
    }
}

/// The width class of a cluster of measured width `w`: a substituted cluster
/// shows a one-cell glyph and is half width; any other follows `w`.
pub open spec fn unit_width(g: Seq<char>, w: nat) -> GraphemeWidth {
    if replacement_for(g, w) is Some {
        GraphemeWidth::Half
    } else {
        width_class(w)
    }
}

/// The glyph shown in place of a cluster of measured width `w`, if any.
pub open spec fn replacement_for(g: Seq<char>, w: nat) -> Option<char> {
    if all_tabs(g) {
        Some(' ')
    } else if w > 0 && all_blank(g) {
        Some('␣')
    } else if w == 0 && all_control(g) {
        Some('▯')
    } else if w == 0 {
        Some('·')
    } else {
        None
    }
}

#[derive(Clone, Copy, Debug, PartialEq, Eq, Structural)]
pub enum GraphemeWidth {
    Half,
    Full,
}

impl GraphemeWidth {
    /// The number of screen cells of this class.
    pub open spec fn cells(self) -> nat {
        match self {
            GraphemeWidth::Half => 1,
            GraphemeWidth::Full => 2,
        }
    }

    pub fn saturating_add(self, value: usize) -> (r: usize)
        ensures
            r == sat(value + self.cells()),
    {
        match self {
            GraphemeWidth::Half => value.saturating_add(1),
            GraphemeWidth::Full => value.saturating_add(2),
        }
    }
}

/// One grapheme cluster with its rendering attributes.
#[derive(Clone, Debug)]
pub struct TextFragment {
    pub grapheme: String,
    pub rendered_width: GraphemeWidth,
    pub replacement: Option<char>,
}

impl TextFragment {
    /// The attributes are those the cluster's own text determines.
    pub open spec fn wf(&self) -> bool {
        let g = self.grapheme@;
        let w = display_width(g);
        &&& g.len() > 0
        &&& self.rendered_width == unit_width(g, w)
        &&& self.replacement == replacement_for(g, w)
        &&& is_printable_ascii(g) ==> w == g.len()
    }

    /// What the unit shows on screen.
    pub open spec fn glyph(&self) -> Seq<char> {
        match self.replacement {
            Some(c) => seq![c],
            None => self.grapheme@,
        }
    }

    pub fn new(grapheme: String) -> (r: TextFragment)
        requires
            grapheme@.len() > 0,
        ensures
            r.wf(),
            r.grapheme@ == grapheme@,
    {
        let w = str_width(grapheme.as_str());
        let chars = chars_of(grapheme.as_str());
        let replacement = if every_tab(&chars) {
            Some(' ')
        } else if w > 0 && every_blank(&chars) {
            Some('␣')
        } else if w == 0 && every_control(&chars) {
            Some('▯')
        } else if w == 0 {
            Some('·')
        } else {
            None
        };
        let rendered_width = if replacement.is_some() || w <= 1 {
            GraphemeWidth::Half
        } else {
            GraphemeWidth::Full
        };
        TextFragment { grapheme, rendered_width, replacement }
    }
}

/// The number of cells the fragments occupy, side by side.
pub open spec fn cells_sum(frags: Seq<TextFragment>) -> nat
    decreases frags.len(),
{
    if frags.len() == 0 {
        0
    } else {
        cells_sum(frags.drop_last()) + frags.last().rendered_width.cells()
    }
}

/// What a unit spanning cells `[s, e)` shows in the cell window `[start, end)`:
/// nothing outside it, an ellipsis where an edge cuts it, its glyph otherwise.
pub open spec fn visible_piece(f: TextFragment, s: usize, e: usize, start: usize, end: usize) -> Seq<char> {
    if e <= start || s >= end {
        Seq::empty()
    } else if s < start || e > end {
        seq!['⋯']
    } else {
        f.glyph()
    }
}

/// The text that the cell window `[start, end)` of the fragments shows.
pub open spec fn visible_text(frags: Seq<TextFragment>, start: usize, end: usize) -> Seq<char>
    decreases frags.len(),
{
    if frags.len() == 0 || start >= end {
        Seq::empty()
    } else {
        let init = frags.drop_last();
        visible_text(init, start, end) + visible_piece(
            frags.last(),
            sat(cells_sum(init) as int),
            sat(cells_sum(frags) as int),
            start,
            end,
        )
    }
}

/// A line of text, as the sequence of its grapheme clusters.
#[derive(Clone, Debug)]
pub struct Line {
    pub fragments: Vec<TextFragment>,
}

impl Line {
    pub open spec fn wf(&self) -> bool {
        forall|i: int| 0 <= i < self.fragments@.len() ==> (#[trigger] self.fragments@[i]).wf()
    }

    /// The clusters, each as its characters.
    pub open spec fn graphemes(&self) -> Seq<Seq<char>> {
        self.fragments@.map_values(|f: TextFragment| f.grapheme@)
    }

    /// The characters of the line.
    pub open spec fn text(&self) -> Seq<char> {
        joined(self.graphemes())
    }

    /// The characters the line shows: each unit's glyph, side by side.
    pub open spec fn rendered(&self) -> Seq<char> {
        joined(self.fragments@.map_values(|f: TextFragment| f.glyph()))
    }

    /// The number of cells the line occupies.
    pub open spec fn width(&self) -> nat {
        cells_sum(self.fragments@)
    }

    /// The line is the segmentation of `t`.
    pub open spec fn is_line_of(&self, t: Seq<char>) -> bool {
        &&& self.wf()
        &&& self.graphemes() == grapheme_clusters(t)
        &&& self.text() == t
    }

    pub fn empty() -> (r: Line)
        ensures
            r.wf(),
            r.fragments@.len() == 0,
            r.text() == Seq::<char>::empty(),
    {
        let r = Line { fragments: Vec::new() };
        assert(r.graphemes() =~= Seq::<Seq<char>>::empty());
        r
    }

    /// Segments a text into grapheme clusters and gives each its width class
    /// and substitution glyph.
    pub fn from(line_str: &str) -> (r: Line)
        ensures
            r.is_line_of(line_str@),
    {
        let gs = split_graphemes(line_str);
        let mut fragments: Vec<TextFragment> = Vec::new();
        let mut i: usize = 0;
        while i < gs.len()
            invariant
                i <= gs@.len(),
                fragments@.len() == i,
                forall|k: int| 0 <= k < gs@.len() ==> (#[trigger] gs@[k])@.len() > 0,
                forall|k: int|
                    0 <= k < i ==> (#[trigger] fragments@[k]).wf() && fragments@[k].grapheme@ == gs@[k]@,
            decreases gs@.len() - i,
        {
            let g = gs[i].clone();
            fragments.push(TextFragment::new(g));
            i += 1;
        }
        let r = Line { fragments };
        assert(r.graphemes() =~= gs@.map_values(|g: String| g@));
        r
    }

    pub fn grapheme_count(&self) -> (r: usize)
        ensures
            r == self.fragments@.len(),
    {
        self.fragments.len()
    }

    /// The rendered width in cells, saturating at `usize::MAX`.
    pub fn graphemes_width(&self) -> (r: usize)
        ensures
            r == sat(self.width() as int),
            r >= self.fragments@.len(),
            self.fragments@.len() < usize::MAX ==> (r == self.fragments@.len() <==> forall|i: int|
                0 <= i < self.fragments@.len() ==> (#[trigger] self.fragments@[i]).rendered_width
                    == GraphemeWidth::Half),
    {
        proof {
            lemma_cells_sum_bounds(self.fragments@);
        }
        let mut total: usize = 0;
        let mut i: usize = 0;
        while i < self.fragments.len()
            invariant
                i <= self.fragments@.len(),
                total == sat(cells_sum(self.fragments@.take(i as int)) as int),
            decreases self.fragments@.len() - i,
        {
            assert(self.fragments@.take(i + 1).drop_last() =~= self.fragments@.take(i as int));
            total = self.fragments[i].rendered_width.saturating_add(total);
            i += 1;
        }
        assert(self.fragments@.take(i as int) =~= self.fragments@);
        total
    }

    /// The text shown by the cell window `range` of the line: units wholly
    /// inside show their glyph, a unit cut by an edge shows an ellipsis.
    pub fn get_visible_graphemes(&self, range: Range<usize>) -> (r: String)
        ensures
            r@ == visible_text(self.fragments@, range.start, range.end),
    {
        let mut result = String::new();
        if range.start >= range.end {
            return result;
        }
        let ghost frags = self.fragments@;
        let mut fragment_start: usize = 0;
        let mut i: usize = 0;
        while i < self.fragments.len()
            invariant
                frags == self.fragments@,
                range.start < range.end,
                i <= frags.len(),
                fragment_start == sat(cells_sum(frags.take(i as int)) as int),
                result@ == visible_text(frags.take(i as int), range.start, range.end),
            decreases frags.len() - i,
        {
            let fragment = &self.fragments[i];
            let fragment_end = fragment.rendered_width.saturating_add(fragment_start);
            assert(frags.take(i + 1).drop_last() =~= frags.take(i as int));
            assert(frags.take(i + 1).last() == frags[i as int]);
            if fragment_end > range.start && fragment_start < range.end {
                if fragment_start < range.start || fragment_end > range.end {
                    let mark = char_string('⋯');
                    result.append(mark.as_str());
                } else {
                    match fragment.replacement {
                        Some(c) => {
                            let glyph = char_string(c);
                            result.append(glyph.as_str());
                        },
                        None => {
                            result.append(fragment.grapheme.as_str());
                        },
                    }
                }
            } else {
                assert(result@ + Seq::<char>::empty() =~= result@);
            }
            fragment_start = fragment_end;
            i += 1;
        }
        assert(frags.take(i as int) =~= frags);
        result
    }
}

/// Each unit occupies one or two cells.
proof fn lemma_cells_sum_bounds(frags: Seq<TextFragment>)
    ensures
        cells_sum(frags) >= frags.len(),
        cells_sum(frags) == frags.len() <==> forall|i: int|
            0 <= i < frags.len() ==> (#[trigger] frags[i]).rendered_width == GraphemeWidth::Half,
    decreases frags.len(),
{
    if frags.len() > 0 {
        let init = frags.drop_last();
        lemma_cells_sum_bounds(init);
        if cells_sum(frags) == frags.len() {
            assert forall|i: int| 0 <= i < frags.len() implies (#[trigger] frags[i]).rendered_width
                == GraphemeWidth::Half by {
                if i < frags.len() - 1 {
                    assert(frags[i] == init[i]);
                }
            }
        }
        if forall|i: int| 0 <= i < frags.len() ==> (#[trigger] frags[i]).rendered_width == GraphemeWidth::Half {
            assert forall|i: int| 0 <= i < init.len() implies (#[trigger] init[i]).rendered_width
                == GraphemeWidth::Half by {
                assert(frags[i] == init[i]);
            }
            assert(frags[frags.len() - 1].rendered_width == GraphemeWidth::Half);
        }
    }
}

/// A line occupies at least one cell per unit, and exactly one per unit
/// when every unit is half width.
pub proof fn lemma_width_at_least_count(line: &Line)
    ensures
        line.width() >= line.fragments@.len(),
        line.width() == line.fragments@.len() <==> forall|i: int|
            0 <= i < line.fragments@.len() ==> (#[trigger] line.fragments@[i]).rendered_width
                == GraphemeWidth::Half,
{
    lemma_cells_sum_bounds(line.fragments@);
}

/// A window that covers every cell shows each unit's glyph.
proof fn lemma_full_window(frags: Seq<TextFragment>, end: usize)
    requires
        cells_sum(frags) <= end,
    ensures
        visible_text(frags, 0, end) == joined(frags.map_values(|f: TextFragment| f.glyph())),
    decreases frags.len(),
{
    let glyphs = frags.map_values(|f: TextFragment| f.glyph());
    if frags.len() == 0 {
        assert(glyphs.len() == 0);
    } else {
        let init = frags.drop_last();
        lemma_cells_sum_bounds(frags);
        lemma_full_window(init, end);
        assert(glyphs.drop_last() =~= init.map_values(|f: TextFragment| f.glyph()));
    }
}

/// The line's whole width, as a window, shows exactly what the line
/// renders, when that width fits in `usize`.
pub proof fn lemma_full_window_shows_rendered(line: &Line)
    requires
        line.width() <= usize::MAX,
    ensures
        visible_text(line.fragments@, 0, sat(line.width() as int)) == line.rendered(),
{
    lemma_full_window(line.fragments@, sat(line.width() as int));
}

/// A line whose text is visible ASCII (printable, with no spaces and no
/// control characters) shows exactly its text.
pub proof fn lemma_round_trip(line: &Line)
    requires
        line.wf(),
        is_graphic_ascii(line.text()),
    ensures
        line.rendered() == line.text(),
        line.width() <= usize::MAX ==> visible_text(line.fragments@, 0, sat(line.width() as int))
            == line.text(),
{
    if line.width() <= usize::MAX {
        lemma_full_window_shows_rendered(line);
    }
    let frags = line.fragments@;
    lemma_joined_pieces_graphic(line.graphemes());
    assert forall|k: int| 0 <= k < frags.len() implies (#[trigger] frags[k]).glyph() == frags[k].grapheme@ by {
        let g = frags[k].grapheme@;
        assert(line.graphemes()[k] == g);
        assert(frags[k].wf());
        assert('!' <= g[0] <= '~');
        assert(is_printable_ascii(g));
        assert(!all_tabs(g));
        assert(!all_blank(g));
    }
    assert(frags.map_values(|f: TextFragment| f.glyph()) =~= line.graphemes());
}

fn char_string(c: char) -> (r: String)
    ensures
        r@ == seq![c],
{
    let mut v: Vec<char> = Vec::new();
    v.push(c);
    string_of(&v)
}

fn is_control(c: char) -> (r: bool)
    ensures
        r == is_control_char(c),
{
    let v = c as u32;
    v <= 0x1f || (0x7f <= v && v <= 0x9f)
}

fn is_whitespace(c: char) -> (r: bool)
    ensures
        r == is_white_space(c),
{
    let v = c as u32;
    (0x09 <= v && v <= 0x0d) || v == 0x20 || v == 0x85 || v == 0xa0 || v == 0x1680 || (0x2000 <= v
        && v <= 0x200a) || v == 0x2028 || v == 0x2029 || v == 0x202f || v == 0x205f || v == 0x3000
}

fn every_tab(v: &Vec<char>) -> (r: bool)
    ensures
        r == all_tabs(v@),
{
    let mut i: usize = 0;
    while i < v.len()
        invariant
            i <= v@.len(),
            forall|k: int| 0 <= k < i ==> #[trigger] v@[k] == '\t',
        decreases v@.len() - i,
    {
        if v[i] != '\t' {
            return false;
        }
        i += 1;
    }
    true
}

fn every_blank(v: &Vec<char>) -> (r: bool)
    ensures
        r == all_blank(v@),
{
    let mut i: usize = 0;
    while i < v.len()
        invariant
            i <= v@.len(),
            forall|k: int| 0 <= k < i ==> is_white_space(#[trigger] v@[k]),
        decreases v@.len() - i,
    {
        if !is_whitespace(v[i]) {
            return false;
        }
        i += 1;
    }
    true
}

fn every_control(v: &Vec<char>) -> (r: bool)
    ensures
        r == all_control(v@),
{
    let mut i: usize = 0;
    while i < v.len()
        invariant
            i <= v@.len(),
            forall|k: int| 0 <= k < i ==> is_control_char(#[trigger] v@[k]),
        decreases v@.len() - i,
    {
        if !is_control(v[i]) {
            return false;
        }
        i += 1;
    }
    true
}

} // verus!
