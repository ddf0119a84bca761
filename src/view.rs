//! Document locations, screen positions and the viewport size.
use vstd::prelude::*;

verus! {

/// An absolute place in the document: a line and a grapheme within it.
#[derive(Clone, Copy, Debug, Default, PartialEq, Eq, Structural)]
pub struct Location {
    pub line_index: usize,
    pub grapheme_index: usize,
}

/// A cell of the viewport grid.
#[derive(Clone, Copy, Debug, Default, PartialEq, Eq, Structural)]
pub struct Position {
    pub x: usize,
    pub y: usize,
}

/// The viewport's width and height in cells.
#[derive(Clone, Copy, Debug, Default, PartialEq, Eq, Structural)]
pub struct Size {
    pub width: usize,
    pub height: usize,
}

/// `a - b`, or zero where `b` exceeds `a`.
pub open spec fn diff_or_zero(a: usize, b: usize) -> usize {
    if a >= b {
        (a - b) as usize
    } else {
        0
    }
}

impl Location {
    /// The cell this location maps to when `scroll_offset` is at the
    /// viewport's top-left corner; each coordinate stops at zero.
    pub fn to_position(&self, scroll_offset: Location) -> (r: Position)
        ensures
            r.x == diff_or_zero(self.grapheme_index, scroll_offset.grapheme_index),
            r.y == diff_or_zero(self.line_index, scroll_offset.line_index),
    {
        Position {
            x: self.grapheme_index.saturating_sub(scroll_offset.grapheme_index),
            y: self.line_index.saturating_sub(scroll_offset.line_index),
        }
    }
}

impl From<Location> for Position {
    fn from(location: Location) -> (r: Position)
        ensures
            r.x == location.grapheme_index,
            r.y == location.line_index,
    {
        Position { x: location.grapheme_index, y: location.line_index }
    }
}

impl vstd::std_specs::convert::FromSpecImpl<Location> for Position {
    open spec fn obeys_from_spec() -> bool {
        true
    }

    open spec fn from_spec(location: Location) -> Position {
        Position { x: location.grapheme_index, y: location.line_index }
    }
}

} // verus!
