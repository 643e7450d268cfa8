//! Box-drawing line segments for frames, tables and separators.
use vstd::prelude::*;

use vstd::utf8::{decode_utf8, valid_utf8};

use crate::graphics::{char_bytes, lemma_char_bytes_decode, push_char, Drawable};

verus! {

/// A border piece drawn with a Unicode "Box Drawing" symbol.
#[derive(Clone, Copy, Debug, PartialEq, Eq, Structural)]
pub enum Line {
    /// Lower-left corner: '└'
    LeftBottomCorner,
    /// Upper-left corner: '┌'
    LeftTopCorner,
    /// Upper-right corner: '┐'
    RightTopCorner,
    /// Lower-right corner: '┘'
    RightBottomCorner,
    /// Center intersection (cross): '┼'
    Intersection,
    /// Horizontal line: '─'
    Horizontal,
    /// T-junction pointing right: '├'
    LeftIntersect,
    /// T-junction pointing left: '┤'
    RightIntersect,
    /// T-junction pointing down: '┬'
    TopIntersect,
    /// T-junction pointing up: '┴'
    BottomIntersect,
    /// Vertical line: '│'
    Vertical,
}

impl Line {
    /// The box-drawing character of each variant.
    pub open spec fn spec_symbol(self) -> char {
        match self {
            Line::LeftBottomCorner => '└',
            Line::LeftTopCorner => '┌',
            Line::RightTopCorner => '┐',
            Line::RightBottomCorner => '┘',
            Line::Intersection => '┼',
            Line::Horizontal => '─',
            Line::LeftIntersect => '├',
            Line::RightIntersect => '┤',
            Line::TopIntersect => '┬',
            Line::BottomIntersect => '┴',
            Line::Vertical => '│',
        }
    }

    /// Returns the box-drawing character of this segment.
    pub fn symbol(&self) -> (r: char)
        ensures
            r == self.spec_symbol(),
    {
        match self {
            Line::LeftBottomCorner => '└',
            Line::LeftTopCorner => '┌',
            Line::RightTopCorner => '┐',
            Line::RightBottomCorner => '┘',
            Line::Intersection => '┼',
            Line::Horizontal => '─',
            Line::LeftIntersect => '├',
            Line::RightIntersect => '┤',
            Line::TopIntersect => '┬',
            Line::BottomIntersect => '┴',
            Line::Vertical => '│',
        }
    }
}

impl Drawable for Line {
    open spec fn rendered(&self) -> Seq<u8> {
        char_bytes(self.spec_symbol())
    }

    fn draw(&self, out: &mut Vec<u8>) {
        push_char(out, self.symbol());
    }
}

/// Each segment draws exactly one character, and distinct segments never
/// draw the same character.
pub proof fn lemma_one_distinct_symbol(a: Line, b: Line)
    ensures
        valid_utf8(a.rendered()),
        decode_utf8(a.rendered()) == seq![a.spec_symbol()],
        a.spec_symbol() == b.spec_symbol() ==> a == b,
{
    lemma_char_bytes_decode(a.spec_symbol());
}

} // verus!
