use vstd::prelude::*;
use vstd::utf8::*;

use crate::error::Error;

pub mod chars;
pub mod lines;

verus! {

/// Something that renders itself as a sequence of bytes: exactly the bytes
/// that represent it, with no cursor movement and no trailing newline.
pub trait Drawable {
    /// The bytes that `draw` appends.
    spec fn rendered(&self) -> Seq<u8>;

    /// Appends the rendering of `self` to `out`.
    fn draw(&self, out: &mut Vec<u8>)
        ensures
            final(out)@ == old(out)@ + self.rendered(),
    ;
}

/// The UTF-8 bytes of one character.
pub open spec fn char_bytes(c: char) -> Seq<u8> {
    encode_scalar(c as u32)
}

/// Appends the UTF-8 encoding of `c` to `out`.
pub fn push_char(out: &mut Vec<u8>, c: char)
    ensures
        final(out)@ == old(out)@ + char_bytes(c),
{
    let v = c as u32;
    if v <= 0x7F {
        out.push((v & 0x7F) as u8);
    } else if v <= 0x7FF {
        out.push(0xC0 | ((v >> 6) & 0x1F) as u8);
        out.push(0x80 | (v & 0x3F) as u8);
    } else if v <= 0xFFFF {
        out.push(0xE0 | ((v >> 12) & 0x0F) as u8);
        out.push(0x80 | ((v >> 6) & 0x3F) as u8);
        out.push(0x80 | (v & 0x3F) as u8);
    } else {
        out.push(0xF0 | ((v >> 18) & 0x7) as u8);
        out.push(0x80 | ((v >> 12) & 0x3F) as u8);
        out.push(0x80 | ((v >> 6) & 0x3F) as u8);
        out.push(0x80 | (v & 0x3F) as u8);
    }
    proof {
        char_is_scalar(c);
        assert(out@ =~= old(out)@ + char_bytes(c));
    }
}

/// The bytes of one character decode back to exactly that one character.
pub proof fn lemma_char_bytes_decode(c: char)
    ensures
        valid_utf8(char_bytes(c)),
        decode_utf8(char_bytes(c)) == seq![c],
{
    let s = seq![c];
    assert(s.drop_first() =~= Seq::<char>::empty());
    assert(encode_utf8(s.drop_first()) =~= Seq::<u8>::empty());
    assert(encode_utf8(s) =~= char_bytes(c));
    encode_utf8_valid_utf8(s);
    encode_utf8_decode_utf8(s);
}

/// A logical drawing position. It is not tied to the terminal's own cursor,
/// and any value, negative or past the screen, is a legal state.
#[derive(Clone, Copy, Debug, Default, PartialEq, Eq, Structural)]
pub struct VirtualCursor {
    pub x: i16,
    pub y: i16,
}

impl VirtualCursor {
    /// Moves the cursor to (`x`, `y`).
    pub fn set_position(&mut self, x: i16, y: i16)
        ensures
            *final(self) == (VirtualCursor { x, y }),
    {
        self.x = x;
        self.y = y;
    }
}

/// The mathematical content of a frame buffer: its dimensions and its cells,
/// row after row.
pub ghost struct Grid {
    pub width: int,
    pub height: int,
    pub cells: Seq<char>,
}

impl Grid {
    /// Non-negative dimensions, and exactly one cell for each position.
    pub open spec fn wf(self) -> bool {
        &&& self.width >= 0
        &&& self.height >= 0
        &&& self.cells.len() == self.width * self.height
    }

    pub open spec fn in_bounds(self, x: int, y: int) -> bool {
        0 <= x < self.width && 0 <= y < self.height
    }

    /// Position of the cell at column `x` and row `y` in `cells`.
    pub open spec fn index(self, x: int, y: int) -> int {
        y * self.width + x
    }

    /// The character at column `x`, row `y`; `None` outside the grid.
    pub open spec fn at(self, x: int, y: int) -> Option<char> {
        if self.in_bounds(x, y) {
            Some(self.cells[self.index(x, y)])
        } else {
            None
        }
    }

    /// A grid of the given size whose cells all hold a space.
    pub open spec fn blank(width: int, height: int) -> Grid {
        Grid { width, height, cells: Seq::new((width * height) as nat, |i: int| ' ') }
    }

    /// The grid with the cell at (`x`, `y`) set to `c`; unchanged when the
    /// position lies outside.
    pub open spec fn insert(self, c: char, x: int, y: int) -> Grid {
        if self.in_bounds(x, y) {
            Grid { cells: self.cells.update(self.index(x, y), c), ..self }
        } else {
            self
        }
    }
}

/// An in-bounds position has its cell inside the row-major sequence.
pub proof fn lemma_index_in_range(g: Grid, x: int, y: int)
    requires
        g.wf(),
        g.in_bounds(x, y),
    ensures
        0 <= g.index(x, y) < g.width * g.height,
{
    let w = g.width;
    let h = g.height;
    assert(0 <= y * w + x < w * h) by (nonlinear_arith)
        requires
            0 <= x < w,
            0 <= y < h,
    ;
}

/// Two in-bounds positions share a cell only when they are the same position.
pub proof fn lemma_index_injective(g: Grid, x1: int, y1: int, x2: int, y2: int)
    requires
        g.in_bounds(x1, y1),
        g.in_bounds(x2, y2),
        g.index(x1, y1) == g.index(x2, y2),
    ensures
        x1 == x2,
        y1 == y2,
{
    let w = g.width;
    assert(y1 == y2) by (nonlinear_arith)
        requires
            0 <= x1 < w,
            0 <= x2 < w,
            y1 * w + x1 == y2 * w + x2,
    ;
}

/// A new frame buffer holds a space in every cell.
pub proof fn lemma_blank_is_spaces(width: int, height: int, x: int, y: int)
    requires
        width >= 0,
        height >= 0,
        Grid::blank(width, height).in_bounds(x, y),
    ensures
        Grid::blank(width, height).wf(),
        Grid::blank(width, height).at(x, y) == Some(' '),
{
    let g = Grid::blank(width, height);
    assert(width * height >= 0) by (nonlinear_arith)
        requires
            width >= 0,
            height >= 0,
    ;
    lemma_index_in_range(g, x, y);
}

/// Writing inside the grid and reading the same position gives the written
/// character back, and every other position keeps what it held.
pub proof fn lemma_insert_then_read(g: Grid, c: char, x: int, y: int, i: int, j: int)
    requires
        g.wf(),
        g.in_bounds(x, y),
    ensures
        g.insert(c, x, y).wf(),
        g.insert(c, x, y).at(x, y) == Some(c),
        (i != x || j != y) ==> g.insert(c, x, y).at(i, j) == g.at(i, j),
{
    lemma_index_in_range(g, x, y);
    if g.in_bounds(i, j) {
        lemma_index_in_range(g, i, j);
        if g.index(i, j) == g.index(x, y) {
            lemma_index_injective(g, i, j, x, y);
        }
    }
}

/// Writing outside the grid leaves it exactly as it was.
pub proof fn lemma_insert_out_of_bounds(g: Grid, c: char, x: int, y: int)
    requires
        !g.in_bounds(x, y),
    ensures
        g.insert(c, x, y) == g,
{
}

/// One cell of a frame buffer.
#[derive(Clone, Copy, PartialEq, Eq, Structural)]
pub struct Cell {
    character: char,
}

impl View for Cell {
    type V = char;

    closed spec fn view(&self) -> char {
        self.character
    }
}

impl Default for Cell {
    fn default() -> (r: Cell)
        ensures
            r@ == ' ',
    {
        Cell { character: ' ' }
    }
}

/// A width by height grid of character cells, stored row after row.
pub struct FrameBuffer {
    width: i16,
    height: i16,
    buffer: Vec<Cell>,
}

impl View for FrameBuffer {
    type V = Grid;

    closed spec fn view(&self) -> Grid {
        Grid {
            width: self.width as int,
            height: self.height as int,
            cells: self.buffer@.map_values(|cell: Cell| cell.character),
        }
    }
}

impl FrameBuffer {
    /// Creates a buffer of the given size with a space in every cell; a
    /// negative width or height is refused.
    pub fn new(width: i16, height: i16) -> (r: Result<FrameBuffer, Error>)
        ensures
            r is Ok <==> (width >= 0 && height >= 0),
            r matches Ok(fb) ==> fb@ == Grid::blank(width as int, height as int) && fb@.wf(),
            r matches Err(e) ==> e == Error::InvalidDimension,
    {
        if width < 0 || height < 0 {
            return Err(Error::InvalidDimension);
        }
        let w = width as usize;
        let h = height as usize;
        assert(w * h <= 32767 * 32767) by (nonlinear_arith)
            requires
                w <= 32767,
                h <= 32767,
        ;
        let n: usize = w * h;
        let mut buffer: Vec<Cell> = Vec::with_capacity(n);
        let mut i: usize = 0;
        while i < n
            invariant
                i <= n,
                buffer@.len() == i,
                forall|k: int| 0 <= k < i ==> (#[trigger] buffer@[k])@ == ' ',
            decreases n - i,
        {
            buffer.push(Cell::default());
            i = i + 1;
        }
        let fb = FrameBuffer { width, height, buffer };
        proof {
            assert(fb@.cells =~= Grid::blank(width as int, height as int).cells);
        }
        Ok(fb)
    }

    /// Sets the cell at column `x`, row `y` to `c`; a position outside the
    /// buffer is silently ignored.
    pub fn insert(&mut self, c: char, x: i16, y: i16)
        requires
            old(self)@.wf(),
        ensures
            final(self)@ == old(self)@.insert(c, x as int, y as int),
            final(self)@.wf(),
            !old(self)@.in_bounds(x as int, y as int) ==> *final(self) == *old(self),
    {
        if x >= 0 && x < self.width && y >= 0 && y < self.height {
            let idx = self.index_of(x, y);
            self.buffer.set(idx, Cell { character: c });
            proof {
                assert(self@.cells =~= old(self)@.insert(c, x as int, y as int).cells);
            }
        }
    }

    /// The character at column `x`, row `y`, or `None` outside the buffer.
    pub fn get(&self, x: i16, y: i16) -> (r: Option<char>)
        requires
            self@.wf(),
        ensures
            r == self@.at(x as int, y as int),
    {
        if x >= 0 && x < self.width && y >= 0 && y < self.height {
            let idx = self.index_of(x, y);
            Some(self.buffer[idx].character)
        } else {
            None
        }
    }

    /// Position in `buffer` of the cell at column `x`, row `y`.
    fn index_of(&self, x: i16, y: i16) -> (r: usize)
        requires
            self@.wf(),
            self@.in_bounds(x as int, y as int),
        ensures
            r as int == self@.index(x as int, y as int),
            r < self.buffer@.len(),
    {
        let len = self.buffer.len();
        proof {
            lemma_index_in_range(self@, x as int, y as int);
            let (w, yy) = (self.width as int, y as int);
            assert(0 <= yy * w <= yy * w + x as int) by (nonlinear_arith)
                requires
                    0 <= yy,
                    0 <= w,
                    0 <= x,
            ;
            assert(len as int == self@.cells.len());
        }
        (y as usize) * (self.width as usize) + (x as usize)
    }

    pub fn width(&self) -> (r: i16)
        ensures
            r as int == self@.width,
    {
        self.width
    }

    pub fn height(&self) -> (r: i16)
        ensures
            r as int == self@.height,
    {
        self.height
    }
}

} // verus!
