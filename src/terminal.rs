//! The editor session: caret, scroll offset and viewport over a buffer, the
//! scrolling rule, the command state machine and the frame it renders.
use crate::buffer::{char_inserted, newline_inserted, unit_deleted, Buffer};
use crate::command::{key_command, Direction, InputEvent, SpecialKey, TerminalCommand};
use crate::line::{sat, visible_text, Line};
use crate::text::{chars_of, string_of};
use crate::view::{diff_or_zero, Location, Position, Size};
use vstd::prelude::*;

verus! {

/// The offset along one axis after the scrolling rule: moved just enough
/// that `target` falls in `[offset, offset + extent)`.
pub open spec fn scrolled(target: usize, offset: usize, extent: usize) -> usize {
    if target < offset {
        target
    } else if target >= sat(offset + extent) {
        sat(diff_or_zero(target, extent) + 1)
    } else {
        offset
    }
}

/// The scrolling rule acts along an axis: the target lies before the offset
/// or at or past the window's end.
pub open spec fn scroll_acts(target: usize, offset: usize, extent: usize) -> bool {
    target < offset || target >= sat(offset + extent)
}

/// The scroll offset after the scrolling rule, on both axes.
pub open spec fn scroll_for(caret: Location, offset: Location, size: Size) -> Location {
    Location {
        line_index: scrolled(caret.line_index, offset.line_index, size.height),
        grapheme_index: scrolled(caret.grapheme_index, offset.grapheme_index, size.width),
    }
}

/// After the scrolling rule the target lies inside a window of positive
/// extent.
pub proof fn lemma_scroll_contains(target: usize, offset: usize, extent: usize)
    requires
        extent > 0,
    ensures
        scrolled(target, offset, extent) <= target < scrolled(target, offset, extent) + extent,
{
}

/// The caret after one move in `dir` over `lines`, with a viewport `height`
/// lines high.
pub open spec fn moved(lines: Seq<Line>, loc: Location, dir: Direction, height: usize) -> Location {
    let row = loc.line_index;
    let col = loc.grapheme_index;
    let n = lines.len();
    match dir {
        Direction::Up => if row > 0 {
            let w = sat(lines[row - 1].width() as int);
            Location { line_index: (row - 1) as usize, grapheme_index: if col > w { w } else { col } }
        } else {
            loc
        },
        Direction::Down => if row + 1 < n {
            let w = sat(lines[row + 1].width() as int);
            Location { line_index: (row + 1) as usize, grapheme_index: if col > w { w } else { col } }
        } else {
            loc
        },
        Direction::Left => if col > 0 {
            Location { line_index: row, grapheme_index: (col - 1) as usize }
        } else if row > 0 {
            Location {
                line_index: (row - 1) as usize,
                grapheme_index: lines[row - 1].fragments@.len() as usize,
            }
        } else {
            loc
        },
        Direction::Right => if col < lines[row as int].fragments@.len() {
            Location { line_index: row, grapheme_index: (col + 1) as usize }
        } else if row + 1 < n {
            Location { line_index: (row + 1) as usize, grapheme_index: 0 }
        } else {
            loc
        },
        Direction::PageUp => Location {
            line_index: if row < height {
                0
            } else {
                (row - height) as usize
            },
            grapheme_index: col,
        },
        Direction::PageDown => Location {
            line_index: if n > sat(row + height) {
                sat(row + height)
            } else {
                (n - 1) as usize
            },
            grapheme_index: col,
        },
        Direction::Home => Location { line_index: row, grapheme_index: 0 },
        Direction::End => Location {
            line_index: row,
            grapheme_index: diff_or_zero(lines[row as int].fragments@.len() as usize, 1),
        },
    }
}

/// The banner an empty document shows.
pub open spec fn banner() -> Seq<char> {
    "termedit editor -- version 0.1.0"@
}

/// The banner row for a viewport `width` cells wide: a tilde, padding that
/// roughly centres the banner, then the banner, cut to the width.
pub open spec fn welcome_text(width: usize) -> Seq<char> {
    let m = banner();
    let x = diff_or_zero(width, m.len() as usize) / 2;
    let full = seq!['~'] + Seq::new(diff_or_zero(x, 1) as nat, |i: int| ' ') + m;
    if width < full.len() {
        full.take(width as int)
    } else {
        full
    }
}

/// The document is one empty line.
pub open spec fn is_blank_document(b: Buffer) -> bool {
    b.lines@.len() == 1 && b.lines@[0].fragments@.len() == 0
}

/// What viewport row `r` shows: the visible cells of its document line, or
/// past the end of the document a tilde, with the banner on the row a third
/// of the way down when the document is one empty line.
pub open spec fn row_text(t: Terminal, r: int) -> Seq<char> {
    let li = sat(t.scroll_offset.line_index + r);
    let width = t.size.width;
    if li < t.buffer.lines@.len() {
        let line = t.buffer.lines@[li as int];
        let left = t.scroll_offset.grapheme_index;
        let lw = sat(line.width() as int);
        let right = if sat(left + width) > lw {
            lw
        } else {
            sat(left + width)
        };
        visible_text(line.fragments@, left, right)
    } else if r == t.size.height / 3 && is_blank_document(t.buffer) {
        welcome_text(width)
    } else {
        seq!['~']
    }
}

/// Moving left from the document's first place, or right from the end of its
/// last line, leaves the caret where it is.
pub proof fn lemma_boundary_moves(lines: Seq<Line>, height: usize)
    requires
        lines.len() >= 1,
        lines.len() <= usize::MAX,
        lines.last().fragments@.len() <= usize::MAX,
    ensures
        ({
            let origin = Location { line_index: 0, grapheme_index: 0 };
            moved(lines, origin, Direction::Left, height) == origin
        }),
        ({
            let end = Location {
                line_index: (lines.len() - 1) as usize,
                grapheme_index: lines.last().fragments@.len() as usize,
            };
            moved(lines, end, Direction::Right, height) == end
        }),
{
}

/// Backspace at the document's first place leaves the buffer unchanged.
pub proof fn lemma_backspace_at_origin(pre: Terminal, post: Terminal)
    requires
        pre.location == (Location { line_index: 0, grapheme_index: 0 }),
        key_applied(pre, SpecialKey::Backspace, post),
    ensures
        post.buffer == pre.buffer,
        post.location == pre.location,
{
}

/// The editor session's state.
pub struct Terminal {
    pub buffer: Buffer,
    pub needs_render: bool,
    pub size: Size,
    pub location: Location,
    pub scroll_offset: Location,
}

/// `post` is `pre` with the caret put at `caret` over `post`'s buffer and
/// the scrolling rule applied.
pub open spec fn relocated(pre: Terminal, caret: Location, post: Terminal) -> bool {
    &&& post.size == pre.size
    &&& post.location == caret
    &&& post.scroll_offset == scroll_for(caret, pre.scroll_offset, pre.size)
    &&& post.needs_render == (pre.needs_render || scroll_acts(
        caret.line_index,
        pre.scroll_offset.line_index,
        pre.size.height,
    ) || scroll_acts(caret.grapheme_index, pre.scroll_offset.grapheme_index, pre.size.width))
}

/// `post` is `pre` after moving the caret in `dir`.
pub open spec fn caret_moved(pre: Terminal, dir: Direction, post: Terminal) -> bool {
    &&& post.buffer == pre.buffer
    &&& relocated(pre, moved(pre.buffer.lines@, pre.location, dir, pre.size.height), post)
}

/// `post` is `pre` after typing `c`: the character goes in at the caret, and
/// the caret moves right when the caret's line gained a unit.
pub open spec fn typed(pre: Terminal, c: char, post: Terminal) -> bool {
    let row = pre.location.line_index as int;
    let lines = post.buffer.lines@;
    &&& char_inserted(pre.buffer.lines@, pre.location, c, lines)
    &&& post.size == pre.size
    &&& post.needs_render
    &&& if lines[row].fragments@.len() > pre.buffer.lines@[row].fragments@.len() {
        let caret = moved(lines, pre.location, Direction::Right, pre.size.height);
        &&& post.location == caret
        &&& post.scroll_offset == scroll_for(caret, pre.scroll_offset, pre.size)
    } else {
        &&& post.location == pre.location
        &&& post.scroll_offset == pre.scroll_offset
    }
}

/// `post` has `pre`'s size, the caret at `caret` and the scrolling rule
/// applied, and is marked for redraw.
pub open spec fn edited_to(pre: Terminal, caret: Location, post: Terminal) -> bool {
    &&& post.size == pre.size
    &&& post.location == caret
    &&& post.scroll_offset == scroll_for(caret, pre.scroll_offset, pre.size)
    &&& post.needs_render
}

/// `post` is `pre` after the structural edit `key`.
pub open spec fn key_applied(pre: Terminal, key: SpecialKey, post: Terminal) -> bool {
    let row = pre.location.line_index;
    let col = pre.location.grapheme_index;
    let lines = pre.buffer.lines@;
    match key {
        SpecialKey::Enter => {
            &&& newline_inserted(lines, pre.location, post.buffer.lines@)
            &&& edited_to(
                pre,
                moved(post.buffer.lines@, pre.location, Direction::Right, pre.size.height),
                post,
            )
        },
        SpecialKey::Delete => {
            &&& unit_deleted(lines, pre.location, post.buffer.lines@)
            &&& post.size == pre.size
            &&& post.location == pre.location
            &&& post.scroll_offset == pre.scroll_offset
            &&& post.needs_render
        },
        SpecialKey::Backspace => if col > 0 {
            let left = Location { line_index: row, grapheme_index: (col - 1) as usize };
            &&& if col - 1 < lines[row as int].fragments@.len() {
                unit_deleted(lines, left, post.buffer.lines@)
            } else {
                post.buffer == pre.buffer
            }
            &&& edited_to(pre, left, post)
        } else if row > 0 {
            let end = Location {
                line_index: (row - 1) as usize,
                grapheme_index: lines[row - 1].fragments@.len() as usize,
            };
            &&& unit_deleted(lines, end, post.buffer.lines@)
            &&& edited_to(pre, end, post)
        } else {
            &&& post.buffer == pre.buffer
            &&& post.size == pre.size
            &&& post.location == pre.location
            &&& post.scroll_offset == pre.scroll_offset
            &&& post.needs_render
        },
        _ => post == pre,
    }
}

/// `post` is `pre` with the viewport resized to `to`.
pub open spec fn resized(pre: Terminal, to: Size, post: Terminal) -> bool {
    &&& post.buffer == pre.buffer
    &&& post.size == to
    &&& post.location == pre.location
    &&& post.scroll_offset == scroll_for(pre.location, pre.scroll_offset, to)
    &&& post.needs_render
}

/// `post` is `pre` after `command`.
pub open spec fn command_applied(pre: Terminal, command: TerminalCommand, post: Terminal) -> bool {
    match command {
        TerminalCommand::MoveCaret(dir) => caret_moved(pre, dir, post),
        TerminalCommand::OrdinaryChar(c) => typed(pre, c, post),
        TerminalCommand::SpecialKey(key) => key_applied(pre, key, post),
        TerminalCommand::Resize(to) => resized(pre, to, post),
        _ => post == pre,
    }
}

impl Terminal {
    /// The caret's line exists in a well-formed buffer.
    pub open spec fn wf(&self) -> bool {
        &&& self.buffer.wf()
        &&& self.location.line_index < self.buffer.lines@.len()
    }

    /// A session on `file_content` with a viewport of `size`, caret and
    /// scroll offset at the origin, due for a redraw.
    pub fn new(file_content: String, size: Size) -> (r: Terminal)
        ensures
            r.wf(),
            r.buffer.lines@.len() == crate::buffer::line_texts(file_content@).len(),
            forall|i: int|
                0 <= i < r.buffer.lines@.len() ==> (#[trigger] r.buffer.lines@[i]).is_line_of(
                    crate::buffer::line_texts(file_content@)[i],
                ),
            r.needs_render,
            r.size == size,
            r.location == (Location { line_index: 0, grapheme_index: 0 }),
            r.scroll_offset == (Location { line_index: 0, grapheme_index: 0 }),
    {
        Terminal {
            buffer: Buffer::new(file_content),
            needs_render: true,
            size,
            location: Location { line_index: 0, grapheme_index: 0 },
            scroll_offset: Location { line_index: 0, grapheme_index: 0 },
        }
    }

    /// Moves the caret one step in `direction`, then applies the scrolling
    /// rule.
    pub fn move_caret_to_location(&mut self, direction: Direction)
        requires
            old(self).wf(),
        ensures
            final(self).wf(),
            caret_moved(*old(self), direction, *final(self)),
    {
        let height = self.size.height;
        let row = self.location.line_index;
        let col = self.location.grapheme_index;
        let n = self.buffer.lines.len();
        let count = self.buffer.lines[row].grapheme_count();
        let next = match direction {
            Direction::Up => {
                if row > 0 {
                    let w = self.buffer.lines[row - 1].graphemes_width();
                    Location { line_index: row - 1, grapheme_index: if col > w { w } else { col } }
                } else {
                    self.location
                }
            },
            Direction::Down => {
                if row + 1 < n {
                    let w = self.buffer.lines[row + 1].graphemes_width();
                    Location { line_index: row + 1, grapheme_index: if col > w { w } else { col } }
                } else {
                    self.location
                }
            },
            Direction::Left => {
                if col > 0 {
                    Location { line_index: row, grapheme_index: col - 1 }
                } else if row > 0 {
                    Location {
                        line_index: row - 1,
                        grapheme_index: self.buffer.lines[row - 1].grapheme_count(),
                    }
                } else {
                    self.location
                }
            },
            Direction::Right => {
                if col < count {
                    Location { line_index: row, grapheme_index: col + 1 }
                } else if row + 1 < n {
                    Location { line_index: row + 1, grapheme_index: 0 }
                } else {
                    self.location
                }
            },
            Direction::PageUp => Location {
                line_index: if row < height {
                    0
                } else {
                    row - height
                },
                grapheme_index: col,
            },
            Direction::PageDown => Location {
                line_index: if n > row.saturating_add(height) {
                    row.saturating_add(height)
                } else {
                    n - 1
                },
                grapheme_index: col,
            },
            Direction::Home => Location { line_index: row, grapheme_index: 0 },
            Direction::End => Location { line_index: row, grapheme_index: count.saturating_sub(1) },
        };
        self.location = next;
        self.scroll_location_into_view();
    }

    /// Types `char` at the caret: it is inserted into the buffer, and the
    /// caret moves right when its line gained a unit. `None` does nothing.
    pub fn handle_ordinary_typing(&mut self, char: Option<char>)
        requires
            old(self).wf(),
        ensures
            final(self).wf(),
            match char {
                None => *final(self) == *old(self),
                Some(c) => typed(*old(self), c, *final(self)),
            },
    {
        match char {
            None => {},
            Some(c) => {
                let row = self.location.line_index;
                let old_len = self.buffer.lines[row].grapheme_count();
                let location = self.location;
                self.buffer.insert_char(c, location);
                let new_len = self.buffer.lines[row].grapheme_count();
                if new_len > old_len {
                    self.move_caret_to_location(Direction::Right);
                }
                self.needs_render = true;
            },
        }
    }

    /// Applies a structural edit: Enter splits the line at the caret and
    /// moves onto the new line; Delete deletes forward; Backspace removes the
    /// unit left of the caret, or at the start of a line joins it to the line
    /// above. The other keys change nothing.
    pub fn handle_special_key(&mut self, special_key: SpecialKey)
        requires
            old(self).wf(),
        ensures
            final(self).wf(),
            key_applied(*old(self), special_key, *final(self)),
    {
        let row = self.location.line_index;
        let col = self.location.grapheme_index;
        match special_key {
            SpecialKey::Enter => {
                let location = self.location;
                self.buffer.insert_newline(location);
                self.move_caret_to_location(Direction::Right);
                self.needs_render = true;
            },
            SpecialKey::Delete => {
                let location = self.location;
                self.buffer.delete(location);
                self.needs_render = true;
            },
            SpecialKey::Backspace => {
                if col != 0 {
                    let count = self.buffer.lines[row].grapheme_count();
                    if col - 1 < count {
                        self.buffer.delete(Location { line_index: row, grapheme_index: col - 1 });
                    }
                    self.move_caret_to_location(Direction::Left);
                    self.needs_render = true;
                } else if row != 0 {
                    let end = Location {
                        line_index: row - 1,
                        grapheme_index: self.buffer.lines[row - 1].grapheme_count(),
                    };
                    self.buffer.delete(end);
                    self.location = end;
                    self.scroll_location_into_view();
                    self.needs_render = true;
                } else {
                    self.needs_render = true;
                }
            },
            _ => {},
        }
    }

    /// Takes a new viewport size and applies the scrolling rule.
    pub fn resize(&mut self, to: Size)
        requires
            old(self).wf(),
        ensures
            final(self).wf(),
            resized(*old(self), to, *final(self)),
    {
        self.size = to;
        self.scroll_location_into_view();
        self.needs_render = true;
    }

    /// Applies one command; function keys, quit and unknown commands change
    /// nothing.
    pub fn handle_command(&mut self, command: TerminalCommand)
        requires
            old(self).wf(),
        ensures
            final(self).wf(),
            command_applied(*old(self), command, *final(self)),
    {
        match command {
            TerminalCommand::MoveCaret(direction) => self.move_caret_to_location(direction),
            TerminalCommand::OrdinaryChar(c) => self.handle_ordinary_typing(Some(c)),
            TerminalCommand::SpecialKey(key) => self.handle_special_key(key),
            TerminalCommand::Resize(size) => self.resize(size),
            _ => {},
        }
    }

    /// Decodes one input event and applies it. Returns `Ok(true)` for quit,
    /// `Ok(false)` once anything else was applied, and an error for an event
    /// that cannot be decoded.
    pub fn evaluate_event(&mut self, event: InputEvent) -> (r: Result<bool, String>)
        requires
            old(self).wf(),
        ensures
            final(self).wf(),
            match event {
                InputEvent::Key { key, control } => {
                    let command = key_command(key, control);
                    if command == TerminalCommand::Quit {
                        r == Ok::<bool, String>(true) && *final(self) == *old(self)
                    } else {
                        r == Ok::<bool, String>(false) && command_applied(*old(self), command, *final(self))
                    }
                },
                InputEvent::Resize { width, height } => r == Ok::<bool, String>(false) && resized(
                    *old(self),
                    Size { width: width as usize, height: height as usize },
                    *final(self),
                ),
                InputEvent::Other => r is Err && *final(self) == *old(self),
            },
    {
        match TerminalCommand::try_from(event) {
            Ok(command) => {
                if command == TerminalCommand::Quit {
                    Ok(true)
                } else {
                    self.handle_command(command);
                    Ok(false)
                }
            },
            Err(e) => Err(e),
        }
    }

    /// The banner row for a viewport `width` cells wide.
    pub fn build_welcome_message(width: usize) -> (r: String)
        ensures
            r@ == welcome_text(width),
    {
        let mut message = chars_of("termedit editor -- version 0.1.0");
        let x = width.saturating_sub(message.len()) / 2;
        let spaces = x.saturating_sub(1);
        let mut out: Vec<char> = Vec::new();
        out.push('~');
        let mut i: usize = 0;
        while i < spaces
            invariant
                i <= spaces,
                out@ == seq!['~'] + Seq::new(i as nat, |k: int| ' '),
            decreases spaces - i,
        {
            out.push(' ');
            i += 1;
            assert(out@ =~= seq!['~'] + Seq::new(i as nat, |k: int| ' '));
        }
        out.append(&mut message);
        if width < out.len() {
            out.truncate(width);
        }
        proof {
            assert(out@ =~= welcome_text(width));
        }
        string_of(&out)
    }

    /// The frame to draw, one string per viewport row, when a redraw is
    /// due and the viewport has width; drawing clears the redraw mark.
    pub fn render(&mut self) -> (r: Option<Vec<String>>)
        requires
            old(self).wf(),
        ensures
            final(self).wf(),
            final(self).buffer == old(self).buffer,
            final(self).size == old(self).size,
            final(self).location == old(self).location,
            final(self).scroll_offset == old(self).scroll_offset,
            if !old(self).needs_render || old(self).size.width == 0 {
                r is None && final(self).needs_render == old(self).needs_render
            } else {
                &&& r is Some
                &&& r->0@.len() == old(self).size.height
                &&& forall|k: int| 0 <= k < r->0@.len() ==> (#[trigger] r->0@[k])@ == row_text(*old(self), k)
                &&& !final(self).needs_render
            },
    {
        if !self.needs_render || self.size.width == 0 {
            return None;
        }
        let width = self.size.width;
        let height = self.size.height;
        let top = self.scroll_offset.line_index;
        let blank = self.buffer.lines.len() == 1 && self.buffer.lines[0].grapheme_count() == 0;
        let mut rows: Vec<String> = Vec::new();
        let mut view_row: usize = 0;
        while view_row < height
            invariant
                self.wf(),
                width == self.size.width,
                height == self.size.height,
                top == self.scroll_offset.line_index,
                blank == is_blank_document(self.buffer),
                view_row <= height,
                rows@.len() == view_row,
                forall|k: int| 0 <= k < view_row ==> (#[trigger] rows@[k])@ == row_text(*self, k),
            decreases height - view_row,
        {
            let abs_row = view_row.saturating_add(top);
            let text = if abs_row < self.buffer.lines.len() {
                let line = &self.buffer.lines[abs_row];
                let left = self.scroll_offset.grapheme_index;
                let line_width = line.graphemes_width();
                let right = if left.saturating_add(width) > line_width {
                    line_width
                } else {
                    left.saturating_add(width)
                };
                line.get_visible_graphemes(left..right)
            } else if view_row == height / 3 && blank {
                Self::build_welcome_message(width)
            } else {
                let mut tilde: Vec<char> = Vec::new();
                tilde.push('~');
                string_of(&tilde)
            };
            rows.push(text);
            view_row += 1;
        }
        self.needs_render = false;
        Some(rows)
    }

    pub fn size(&self) -> (r: Size)
        ensures
            r == self.size,
    {
        self.size
    }

    /// The caret's cell in the viewport.
    pub fn get_position(&self) -> (r: Position)
        ensures
            r.x == diff_or_zero(self.location.grapheme_index, self.scroll_offset.grapheme_index),
            r.y == diff_or_zero(self.location.line_index, self.scroll_offset.line_index),
    {
        self.location.to_position(self.scroll_offset)
    }

    /// Shifts the scroll offset just enough to bring the caret into the
    /// viewport, marking the view for redraw when it moves.
    pub fn scroll_location_into_view(&mut self)
        ensures
            final(self).buffer == old(self).buffer,
            relocated(*old(self), old(self).location, *final(self)),
            old(self).size.height > 0 ==> final(self).scroll_offset.line_index <= final(self).location.line_index
                < final(self).scroll_offset.line_index + old(self).size.height,
            old(self).size.width > 0 ==> final(self).scroll_offset.grapheme_index
                <= final(self).location.grapheme_index < final(self).scroll_offset.grapheme_index
                + old(self).size.width,
    {
        let target_row = self.location.line_index;
        let target_col = self.location.grapheme_index;
        let offset_row = self.scroll_offset.line_index;
        let offset_col = self.scroll_offset.grapheme_index;
        let width = self.size.width;
        let height = self.size.height;

        if target_row < offset_row {
            self.scroll_offset.line_index = target_row;
            self.needs_render = true;
        } else if target_row >= offset_row.saturating_add(height) {
            self.scroll_offset.line_index = target_row.saturating_sub(height).saturating_add(1);
            self.needs_render = true;
        }

        if target_col < offset_col {
            self.scroll_offset.grapheme_index = target_col;
            self.needs_render = true;
        } else if target_col >= offset_col.saturating_add(width) {
            self.scroll_offset.grapheme_index = target_col.saturating_sub(width).saturating_add(1);
            self.needs_render = true;
        }
        proof {
            if height > 0 {
                lemma_scroll_contains(target_row, offset_row, height);
            }
            if width > 0 {
                lemma_scroll_contains(target_col, offset_col, width);
            }
        }
    }
}

} // verus!
