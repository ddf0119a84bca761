//! The document buffer: an ordered sequence of lines and its edit operations.
use crate::line::Line;
use crate::text::{chars_of, grapheme_clusters, joined, lemma_joined_concat, lemma_joined_push, lemma_joined_split, string_of};
use crate::view::Location;
use vstd::prelude::*;

verus! {

/// The pieces of `s` between line feeds, in order; always at least one.
pub open spec fn pieces(s: Seq<char>) -> Seq<Seq<char>>
    decreases s.len(),
{
    if s.len() == 0 {
        seq![Seq::empty()]
    } else {
        let p = pieces(s.drop_last());
        if s.last() == '\n' {
            p.push(Seq::empty())
        } else {
            p.update(p.len() - 1, p.last().push(s.last()))
        }
    }
}

/// `t` without one trailing carriage return.
pub open spec fn strip_cr(t: Seq<char>) -> Seq<char> {
    if t.len() > 0 && t.last() == '\r' {
        t.drop_last()
    } else {
        t
    }
}

/// The lines of a text: split at `\n` or `\r\n`, with no line after a final
/// line break, and one empty line for a text with no line at all.
pub open spec fn line_texts(s: Seq<char>) -> Seq<Seq<char>> {
    let p = pieces(s);
    let q = Seq::new(
        p.len(),
        |i: int|
            if i < p.len() - 1 {
                strip_cr(p[i])
            } else {
                p[i]
            },
    );
    let r = if p.last().len() == 0 {
        q.drop_last()
    } else {
        q
    };
    if r.len() == 0 {
        seq![Seq::empty()]
    } else {
        r
    }
}

/// The characters of the units before unit `g`.
pub open spec fn text_before(line: Line, g: int) -> Seq<char> {
    joined(line.graphemes().take(g))
}

/// The characters of unit `g` and the units after it.
pub open spec fn text_from(line: Line, g: int) -> Seq<char> {
    joined(line.graphemes().skip(g))
}

/// `new` is `old` with `ch` inserted at `loc`.
pub open spec fn char_inserted(old: Seq<Line>, loc: Location, ch: char, new: Seq<Line>) -> bool {
    let li = loc.line_index as int;
    let g = loc.grapheme_index as int;
    if li == old.len() {
        &&& new.len() == old.len() + 1
        &&& new.drop_last() == old
        &&& new.last().is_line_of(seq![ch])
    } else if li < old.len() && g <= old[li].fragments@.len() {
        &&& new.len() == old.len()
        &&& forall|i: int| 0 <= i < old.len() && i != li ==> new[i] == old[i]
        &&& new[li].is_line_of(text_before(old[li], g) + seq![ch] + text_from(old[li], g))
    } else {
        new == old
    }
}

/// `new` is `old` after a forward delete at `loc`.
pub open spec fn unit_deleted(old: Seq<Line>, loc: Location, new: Seq<Line>) -> bool {
    let li = loc.line_index as int;
    let g = loc.grapheme_index as int;
    if li < old.len() && g >= old[li].fragments@.len() && li + 1 < old.len() {
        &&& new.len() == old.len() - 1
        &&& forall|i: int| 0 <= i < li ==> new[i] == old[i]
        &&& forall|i: int| li < i < new.len() ==> new[i] == old[i + 1]
        &&& new[li].fragments@ == old[li].fragments@ + old[li + 1].fragments@
    } else if li < old.len() && g < old[li].fragments@.len() {
        &&& new.len() == old.len()
        &&& forall|i: int| 0 <= i < old.len() && i != li ==> new[i] == old[i]
        &&& new[li].is_line_of(text_before(old[li], g) + text_from(old[li], g + 1))
    } else {
        new == old
    }
}

/// Where a line added after line `after` lands.
pub open spec fn slot_after(len: int, after: int) -> int {
    if after < len {
        after + 1
    } else {
        len
    }
}

/// `new` is `old` with `line` added at `pos`, the lines from `pos` on
/// shifted down by one.
pub open spec fn line_added(old: Seq<Line>, pos: int, line: Line, new: Seq<Line>) -> bool {
    &&& new.len() == old.len() + 1
    &&& forall|i: int| 0 <= i < pos ==> new[i] == old[i]
    &&& new[pos] == line
    &&& forall|i: int| pos < i < new.len() ==> new[i] == old[i - 1]
}

/// `new` is `old` with line `li` split before unit `g`; an index out of
/// range adds an empty line after line `li`, or at the end.
pub open spec fn newline_inserted(old: Seq<Line>, loc: Location, new: Seq<Line>) -> bool {
    let li = loc.line_index as int;
    let g = loc.grapheme_index as int;
    if li < old.len() && g <= old[li].fragments@.len() {
        &&& new.len() == old.len() + 1
        &&& forall|i: int| 0 <= i < li ==> new[i] == old[i]
        &&& new[li].fragments@ == old[li].fragments@.take(g)
        &&& new[li + 1].fragments@ == old[li].fragments@.skip(g)
        &&& forall|i: int| li + 1 < i < new.len() ==> new[i] == old[i - 1]
    } else {
        let pos = slot_after(old.len() as int, li);
        &&& new.len() == old.len() + 1
        &&& forall|i: int| 0 <= i < pos ==> new[i] == old[i]
        &&& new[pos].fragments@.len() == 0
        &&& forall|i: int| pos < i < new.len() ==> new[i] == old[i - 1]
    }
}

#[derive(Clone, Debug)]
pub struct Buffer {
    pub lines: Vec<Line>,
}

impl Buffer {
    /// At least one line, each well formed.
    pub open spec fn wf(&self) -> bool {
        &&& self.lines@.len() >= 1
        &&& forall|i: int| 0 <= i < self.lines@.len() ==> (#[trigger] self.lines@[i]).wf()
    }

    /// The characters of each line.
    pub open spec fn texts(&self) -> Seq<Seq<char>> {
        self.lines@.map_values(|l: Line| l.text())
    }

    /// Builds a buffer from a text: one line per line of the text, each
    /// segmented; a text with no line gives one empty line.
    pub fn new(content: String) -> (r: Buffer)
        ensures
            r.wf(),
            r.lines@.len() == line_texts(content@).len(),
            forall|i: int| 0 <= i < r.lines@.len() ==> (#[trigger] r.lines@[i]).is_line_of(line_texts(content@)[i]),
    {
        let chars = chars_of(content.as_str());
        let ghost s = content@;
        let mut lines: Vec<Line> = Vec::new();
        let mut current: Vec<char> = Vec::new();
        let mut i: usize = 0;
        proof {
            assert(s.take(0) =~= Seq::<char>::empty());
        }
        while i < chars.len()
            invariant
                chars@ == s,
                i <= s.len(),
                lines@.len() + 1 == pieces(s.take(i as int)).len(),
                current@ == pieces(s.take(i as int)).last(),
                forall|k: int| 0 <= k < lines@.len() ==> (#[trigger] lines@[k]).is_line_of(strip_cr(pieces(s.take(i as int))[k])),
            decreases s.len() - i,
        {
            let c = chars[i];
            proof {
                assert(s.take(i + 1).drop_last() =~= s.take(i as int));
                assert(s.take(i + 1).last() == c);
            }
            if c == '\n' {
                if current.len() > 0 && current[current.len() - 1] == '\r' {
                    current.pop();
                }
                let text = string_of(&current);
                lines.push(Line::from(text.as_str()));
                current = Vec::new();
            } else {
                current.push(c);
            }
            i += 1;
            proof {
                let p = pieces(s.take(i as int));
                assert forall|k: int| 0 <= k < lines@.len() implies (#[trigger] lines@[k]).is_line_of(strip_cr(p[k])) by {
                    if c == '\n' && k == lines@.len() - 1 {
                        assert(current@.len() == 0);
                    }
                }
            }
        }
        proof {
            assert(s.take(i as int) =~= s);
        }
        let ghost before = lines@;
        if current.len() > 0 {
            let text = string_of(&current);
            lines.push(Line::from(text.as_str()));
        }
        if lines.len() == 0 {
            let text = string_of(&current);
            lines.push(Line::from(text.as_str()));
            proof {
                assert(line_texts(s) =~= seq![Seq::<char>::empty()]);
            }
        }
        let r = Buffer { lines };
        proof {
            let p = pieces(s);
            let q = Seq::new(
                p.len(),
                |j: int|
                    if j < p.len() - 1 {
                        strip_cr(p[j])
                    } else {
                        p[j]
                    },
            );
            if before.len() > 0 || p.last().len() > 0 {
                if p.last().len() == 0 {
                    assert(line_texts(s) == q.drop_last());
                } else {
                    assert(line_texts(s) == q);
                }
                assert forall|i: int| 0 <= i < r.lines@.len() implies (#[trigger] r.lines@[i]).is_line_of(
                    line_texts(s)[i],
                ) by {
                    if i < before.len() {
                        assert(r.lines@[i] == before[i]);
                    }
                }
            }
        }
        r
    }

    pub fn line_count(&self) -> (r: usize)
        ensures
            r == self.lines@.len(),
    {
        self.lines.len()
    }

    /// Inserts `ch` at `location`: a location one past the last line adds a
    /// line holding `ch`; within a line the line's text is rebuilt with `ch`
    /// spliced in and segmented again. Any other location is ignored.
    pub fn insert_char(&mut self, ch: char, location: Location)
        requires
            old(self).wf(),
        ensures
            final(self).wf(),
            char_inserted(old(self).lines@, location, ch, final(self).lines@),
    {
        let li = location.line_index;
        let g = location.grapheme_index;
        if li == self.lines.len() {
            let mut cs: Vec<char> = Vec::new();
            cs.push(ch);
            let s = string_of(&cs);
            self.lines.push(Line::from(s.as_str()));
            assert(self.lines@.drop_last() =~= old(self).lines@);
        } else if li < self.lines.len() && g <= self.lines[li].fragments.len() {
            let line = &self.lines[li];
            let mut cs: Vec<char> = Vec::new();
            push_text(line, 0, g, &mut cs);
            cs.push(ch);
            push_text(line, g, line.fragments.len(), &mut cs);
            proof {
                let gs = line.graphemes();
                assert(gs.subrange(0, g as int) == gs.take(g as int));
                assert(gs.subrange(g as int, gs.len() as int) == gs.skip(g as int));
                assert(cs@ =~= text_before(*line, g as int) + seq![ch] + text_from(*line, g as int));
            }
            let s = string_of(&cs);
            let new_line = Line::from(s.as_str());
            self.lines.set(li, new_line);
        }
    }

    /// Forward delete at `location`: at or past the end of a line that has a
    /// successor, the successor's units are appended to it and the successor
    /// removed; on a unit, that unit is removed and the line segmented again.
    /// Anything else is ignored.
    pub fn delete(&mut self, location: Location)
        requires
            old(self).wf(),
        ensures
            final(self).wf(),
            unit_deleted(old(self).lines@, location, final(self).lines@),
    {
        let li = location.line_index;
        let g = location.grapheme_index;
        if li < self.lines.len() {
            let count = self.lines[li].fragments.len();
            if g >= count && li + 1 < self.lines.len() {
                let mut next = self.lines.remove(li + 1);
                let mut current = self.lines.remove(li);
                current.fragments.append(&mut next.fragments);
                self.lines.insert(li, current);
                proof {
                    let new = self.lines@;
                    let old_lines = old(self).lines@;
                    assert forall|i: int| 0 <= i < new.len() implies (#[trigger] new[i]).wf() by {
                        if i == li {
                            assert forall|k: int| 0 <= k < new[i].fragments@.len() implies (
                            #[trigger] new[i].fragments@[k]).wf() by {
                                if k < old_lines[li as int].fragments@.len() {
                                    assert(new[i].fragments@[k] == old_lines[li as int].fragments@[k]);
                                } else {
                                    assert(new[i].fragments@[k] == old_lines[li + 1].fragments@[k
                                        - old_lines[li as int].fragments@.len()]);
                                }
                            }
                        } else if i < li {
                            assert(new[i] == old_lines[i]);
                        } else {
                            assert(new[i] == old_lines[i + 1]);
                        }
                    }
                }
            } else if g < count {
                let line = &self.lines[li];
                let mut cs: Vec<char> = Vec::new();
                push_text(line, 0, g, &mut cs);
                push_text(line, g + 1, count, &mut cs);
                proof {
                    let gs = line.graphemes();
                    assert(gs.subrange(0, g as int) == gs.take(g as int));
                    assert(gs.subrange(g + 1, gs.len() as int) == gs.skip(g + 1));
                    assert(cs@ =~= text_before(*line, g as int) + text_from(*line, g + 1));
                }
                let s = string_of(&cs);
                let new_line = Line::from(s.as_str());
                self.lines.set(li, new_line);
            }
        }
    }

    /// Cuts line `line_index` before unit `grapheme_index` and returns the
    /// cut-off tail; an index out of range changes nothing and returns an
    /// empty line.
    pub fn split(&mut self, line_index: usize, grapheme_index: usize) -> (r: Line)
        requires
            old(self).wf(),
        ensures
            final(self).wf(),
            r.wf(),
            final(self).lines@.len() == old(self).lines@.len(),
            ({
                let old_lines = old(self).lines@;
                let li = line_index as int;
                let g = grapheme_index as int;
                if li < old_lines.len() && g <= old_lines[li].fragments@.len() {
                    &&& r.fragments@ == old_lines[li].fragments@.skip(g)
                    &&& final(self).lines@[li].fragments@ == old_lines[li].fragments@.take(g)
                    &&& forall|i: int|
                        0 <= i < old_lines.len() && i != li ==> final(self).lines@[i] == old_lines[i]
                } else {
                    &&& r.fragments@.len() == 0
                    &&& final(self).lines@ == old_lines
                }
            }),
    {
        if line_index < self.lines.len() && grapheme_index <= self.lines[line_index].fragments.len() {
            let mut line = self.lines.remove(line_index);
            let tail = line.fragments.split_off(grapheme_index);
            self.lines.insert(line_index, line);
            let r = Line { fragments: tail };
            proof {
                let old_lines = old(self).lines@;
                assert forall|i: int| 0 <= i < self.lines@.len() implies (#[trigger] self.lines@[i]).wf() by {
                    if i != line_index {
                        assert(self.lines@[i] == old_lines[i]);
                    } else {
                        assert forall|k: int| 0 <= k < self.lines@[i].fragments@.len() implies (
                        #[trigger] self.lines@[i].fragments@[k]).wf() by {
                            assert(self.lines@[i].fragments@[k] == old_lines[i].fragments@[k]);
                        }
                    }
                }
                assert forall|k: int| 0 <= k < r.fragments@.len() implies (#[trigger] r.fragments@[k]).wf() by {
                    assert(r.fragments@[k] == old_lines[line_index as int].fragments@[grapheme_index + k]);
                }
            }
            r
        } else {
            Line::empty()
        }
    }

    /// Adds `line`, or an empty line, after line `after_index`; past the
    /// last line it goes at the end.
    pub fn new_line(&mut self, after_index: usize, line: Option<Line>)
        requires
            old(self).wf(),
            line matches Some(l) ==> l.wf(),
        ensures
            final(self).wf(),
            ({
                let pos = slot_after(old(self).lines@.len() as int, after_index as int);
                match line {
                    Some(l) => line_added(old(self).lines@, pos, l, final(self).lines@),
                    None => line_added(old(self).lines@, pos, final(self).lines@[pos], final(self).lines@)
                        && final(self).lines@[pos].fragments@.len() == 0,
                }
            }),
    {
        let added = match line {
            Some(l) => l,
            None => Line::empty(),
        };
        if after_index < self.lines.len() {
            self.lines.insert(after_index + 1, added);
        } else {
            self.lines.push(added);
        }
        proof {
            let old_lines = old(self).lines@;
            let pos = slot_after(old_lines.len() as int, after_index as int);
            assert forall|i: int| 0 <= i < self.lines@.len() implies (#[trigger] self.lines@[i]).wf() by {
                if i < pos {
                    assert(self.lines@[i] == old_lines[i]);
                } else if i > pos {
                    assert(self.lines@[i] == old_lines[i - 1]);
                }
            }
        }
    }

    /// Splits the line at `location` in two, the tail becoming the next line.
    pub fn insert_newline(&mut self, location: Location)
        requires
            old(self).wf(),
        ensures
            final(self).wf(),
            newline_inserted(old(self).lines@, location, final(self).lines@),
    {
        let tail = self.split(location.line_index, location.grapheme_index);
        self.new_line(location.line_index, Some(tail));
    }
}

impl Default for Buffer {
    fn default() -> (r: Buffer)
        ensures
            r.wf(),
            r.lines@.len() == 1,
            r.lines@[0].is_line_of("Hello, World!"@),
    {
        let mut lines: Vec<Line> = Vec::new();
        lines.push(Line::from("Hello, World!"));
        Buffer { lines }
    }
}

/// Deleting at a location right after inserting a character there gives back
/// the text of every line, provided the character stays a unit of its own
/// and the units before it keep their text. Every other line is untouched,
/// and the edited line gets back its units when it was the segmentation of
/// its own text to begin with.
pub proof fn lemma_insert_then_delete(b0: Buffer, loc: Location, ch: char, b1: Buffer, b2: Buffer)
    requires
        b0.wf(),
        loc.line_index < b0.lines@.len(),
        loc.grapheme_index <= b0.lines@[loc.line_index as int].fragments@.len(),
        char_inserted(b0.lines@, loc, ch, b1.lines@),
        unit_deleted(b1.lines@, loc, b2.lines@),
        loc.grapheme_index < b1.lines@[loc.line_index as int].fragments@.len(),
        b1.lines@[loc.line_index as int].graphemes()[loc.grapheme_index as int] == seq![ch],
        text_before(b1.lines@[loc.line_index as int], loc.grapheme_index as int) == text_before(
            b0.lines@[loc.line_index as int],
            loc.grapheme_index as int,
        ),
    ensures
        b2.texts() == b0.texts(),
        b2.lines@.len() == b0.lines@.len(),
        forall|i: int| 0 <= i < b0.lines@.len() && i != loc.line_index ==> b2.lines@[i] == b0.lines@[i],
        b0.lines@[loc.line_index as int].graphemes() == grapheme_clusters(b0.lines@[loc.line_index as int].text())
            ==> b2.lines@[loc.line_index as int].graphemes() == b0.lines@[loc.line_index as int].graphemes(),
{
    let li = loc.line_index as int;
    let g = loc.grapheme_index as int;
    let l0 = b0.lines@[li];
    let l1 = b1.lines@[li];
    let gs1 = l1.graphemes();
    let tb = text_before(l0, g);
    let tf = text_from(l0, g);
    lemma_joined_split(gs1, g);
    assert(gs1.skip(g) =~= seq![gs1[g]] + gs1.skip(g + 1));
    lemma_joined_concat(seq![gs1[g]], gs1.skip(g + 1));
    assert(seq![gs1[g]].drop_last() =~= Seq::<Seq<char>>::empty());
    assert(joined(Seq::<Seq<char>>::empty()) =~= Seq::<char>::empty());
    assert(joined(seq![gs1[g]]) == joined(seq![gs1[g]].drop_last()) + gs1[g]);
    assert(joined(seq![gs1[g]]) =~= gs1[g]);
    let rest = text_from(l1, g + 1);
    assert(l1.text() == tb + seq![ch] + tf);
    assert(l1.text() == tb + (seq![ch] + rest));
    assert(rest =~= l1.text().skip(tb.len() as int + 1));
    assert(tf =~= l1.text().skip(tb.len() as int + 1));
    lemma_joined_split(l0.graphemes(), g);
    assert(b2.lines@[li].text() == l0.text());
    assert(b2.texts() =~= b0.texts()) by {
        assert forall|i: int| 0 <= i < b0.lines@.len() implies b2.lines@[i].text() == b0.lines@[i].text() by {
            if i != li {
                assert(b2.lines@[i] == b1.lines@[i]);
                assert(b1.lines@[i] == b0.lines@[i]);
            }
        }
    }
}

/// Appends the characters of units `from..to` of `line` to `out`.
fn push_text(line: &Line, from: usize, to: usize, out: &mut Vec<char>)
    requires
        from <= to <= line.fragments@.len(),
    ensures
        final(out)@ == old(out)@ + joined(line.graphemes().subrange(from as int, to as int)),
{
    let ghost start = out@;
    let mut i: usize = from;
    while i < to
        invariant
            from <= i <= to <= line.fragments@.len(),
            out@ == start + joined(line.graphemes().subrange(from as int, i as int)),
        decreases to - i,
    {
        let mut cs = chars_of(line.fragments[i].grapheme.as_str());
        proof {
            let gs = line.graphemes();
            assert(gs.subrange(from as int, i + 1) =~= gs.subrange(from as int, i as int).push(gs[i as int]));
            lemma_joined_push(gs.subrange(from as int, i as int), gs[i as int]);
        }
        out.append(&mut cs);
        i += 1;
        assert(out@ =~= start + joined(line.graphemes().subrange(from as int, i as int)));
    }
}

} // verus!
