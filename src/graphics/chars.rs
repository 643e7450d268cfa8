//! A single character as a drawable glyph.
use vstd::prelude::*;

use vstd::std_specs::convert::FromSpec;

use crate::graphics::{char_bytes, push_char, Drawable};

verus! {

/// One character of raw text, drawn verbatim.
#[derive(Clone, Copy, Debug, PartialEq, Eq, Structural)]
pub struct Char {
    char: char,
}

impl View for Char {
    type V = char;

    closed spec fn view(&self) -> char {
        self.char
    }
}

impl Char {
    /// Whether the wrapped character is the line feed.
    pub fn is_newline(&self) -> (r: bool)
        ensures
            r == (self@ == '\n'),
    {
        self.char == '\n'
    }

    /// Returns the wrapped character.
    pub fn character(&self) -> (r: char)
        ensures
            r == self@,
    {
        self.char
    }
}

impl From<char> for Char {
    fn from(char: char) -> (r: Char)
        ensures
            r@ == char,
    {
        Char { char }
    }
}

impl vstd::std_specs::convert::FromSpecImpl<char> for Char {
    open spec fn obeys_from_spec() -> bool {
        true
    }

    closed spec fn from_spec(v: char) -> Char {
        Char { char: v }
    }
}

impl Drawable for Char {
    open spec fn rendered(&self) -> Seq<u8> {
        char_bytes(self@)
    }

    fn draw(&self, out: &mut Vec<u8>) {
        push_char(out, self.char);
    }
}

/// A glyph made from a character is a newline exactly when that character is '\n'.
pub proof fn lemma_from_is_newline(c: char)
    ensures
        <Char as FromSpec<char>>::from_spec(c)@ == c,
        (<Char as FromSpec<char>>::from_spec(c)@ == '\n') <==> c == '\n',
{
}

} // verus!
