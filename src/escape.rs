//! The control sequences written to the terminal, byte for byte.
use vstd::prelude::*;

verus! {

/// The escape byte that starts every control sequence.
pub const ESC: u8 = 0x1b;

/// The decimal digits of `n`, most significant first.
pub open spec fn digits(n: nat) -> Seq<u8>
    decreases n,
{
    if n < 10 {
        seq![(48 + n) as u8]
    } else {
        digits(n / 10).push((48 + n % 10) as u8)
    }
}

/// `n` written in decimal, with a leading '-' when it is negative.
pub open spec fn decimal(n: int) -> Seq<u8> {
    if n < 0 {
        seq![45u8] + digits((-n) as nat)
    } else {
        digits(n as nat)
    }
}

/// `ESC [ row ; column H`: moves the cursor to column `x`, row `y`, counted from 1.
pub open spec fn cursor_move_bytes(x: int, y: int) -> Seq<u8> {
    seq![ESC, 91u8] + decimal(y) + seq![59u8] + decimal(x) + seq![72u8]
}

/// `ESC [ ? 1 0 4 9 h`: switches to the alternate screen buffer.
pub open spec fn enter_alternate_bytes() -> Seq<u8> {
    seq![ESC, 91u8, 63u8, 49u8, 48u8, 52u8, 57u8, 104u8]
}

/// `ESC [ ? 1 0 4 9 l`: switches back to the main screen buffer.
pub open spec fn exit_alternate_bytes() -> Seq<u8> {
    seq![ESC, 91u8, 63u8, 49u8, 48u8, 52u8, 57u8, 108u8]
}

/// `ESC ( 0`: selects the DEC line-drawing character set.
pub open spec fn line_drawing_on_bytes() -> Seq<u8> {
    seq![ESC, 40u8, 48u8]
}

/// `ESC ( B`: selects the ASCII character set again.
pub open spec fn line_drawing_off_bytes() -> Seq<u8> {
    seq![ESC, 40u8, 66u8]
}

/// Appends the decimal digits of `n`.
pub fn push_digits(out: &mut Vec<u8>, n: u32)
    ensures
        final(out)@ == old(out)@ + digits(n as nat),
    decreases n,
{
    if n >= 10 {
        push_digits(out, n / 10);
    }
    out.push(48 + (n % 10) as u8);
    assert(out@ =~= old(out)@ + digits(n as nat));
}

/// Appends `n` in decimal.
pub fn push_decimal(out: &mut Vec<u8>, n: i16)
    ensures
        final(out)@ == old(out)@ + decimal(n as int),
{
    if n < 0 {
        out.push(45);
        let magnitude: i32 = -(n as i32);
        push_digits(out, magnitude as u32);
        proof {
            assert(out@ =~= old(out)@ + decimal(n as int));
        }
    } else {
        push_digits(out, n as u32);
    }
}

/// The alternate-buffer switch, ending in `last`: 'h' to enter, 'l' to leave.
fn alternate_buffer(last: u8) -> (r: Vec<u8>)
    ensures
        r@ == seq![ESC, 91u8, 63u8, 49u8, 48u8, 52u8, 57u8, last],
{
    let mut out: Vec<u8> = Vec::new();
    out.push(ESC);
    out.push(91);
    out.push(63);
    out.push(49);
    out.push(48);
    out.push(52);
    out.push(57);
    out.push(last);
    proof {
        assert(out@ =~= seq![ESC, 91u8, 63u8, 49u8, 48u8, 52u8, 57u8, last]);
    }
    out
}

/// The sequence that enters the alternate screen buffer.
pub fn enter_alternate() -> (r: Vec<u8>)
    ensures
        r@ == enter_alternate_bytes(),
{
    alternate_buffer(104)
}

/// The sequence that leaves the alternate screen buffer.
pub fn exit_alternate() -> (r: Vec<u8>)
    ensures
        r@ == exit_alternate_bytes(),
{
    alternate_buffer(108)
}

} // verus!
