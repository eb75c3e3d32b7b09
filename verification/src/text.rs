//! Text helpers for the bitmap font: label widths and decimal numbers.
use vstd::prelude::*;
use vstd::string::*;

verus! {

/// Horizontal advance of one glyph of the bitmap font at scale 1, in pixels.
pub const GLYPH_ADVANCE: u32 = 6;

/// Width in pixels of `len` glyphs drawn at `scale`.
pub open spec fn spec_text_width(len: nat, scale: nat) -> nat {
    len * 6 * scale
}

/// Width in pixels of a label drawn with the bitmap font.
pub fn text_width(text: &str, scale: u32) -> (r: u32)
    requires
        text@.len() * 6 <= u32::MAX,
        text@.len() * 6 * scale <= u32::MAX,
    ensures
        r == spec_text_width(text@.len(), scale as nat),
{
    let len = text.unicode_len();
    let n: u64 = len as u64;
    assert(n * 6 * (scale as u64) <= u32::MAX);
    (n as u32) * GLYPH_ADVANCE * scale
}

/// The character of a decimal digit.
pub open spec fn digit_char(d: nat) -> char {
    if d == 0 { '0' } else if d == 1 { '1' } else if d == 2 { '2' } else if d == 3 { '3' }
    else if d == 4 { '4' } else if d == 5 { '5' } else if d == 6 { '6' } else if d == 7 { '7' }
    else if d == 8 { '8' } else { '9' }
}

/// Decimal notation of a natural number, without leading zeros.
pub open spec fn decimal(n: nat) -> Seq<char>
    decreases n,
{
    if n < 10 {
        seq![digit_char(n)]
    } else {
        decimal(n / 10).push(digit_char(n % 10))
    }
}

fn digit_str(d: u64) -> (r: &'static str)
    requires
        d < 10,
    ensures
        r@ == seq![digit_char(d as nat)],
{
    proof {
        reveal_strlit("0");
        reveal_strlit("1");
        reveal_strlit("2");
        reveal_strlit("3");
        reveal_strlit("4");
        reveal_strlit("5");
        reveal_strlit("6");
        reveal_strlit("7");
        reveal_strlit("8");
        reveal_strlit("9");
    }
    match d {
        0 => "0",
        1 => "1",
        2 => "2",
        3 => "3",
        4 => "4",
        5 => "5",
        6 => "6",
        7 => "7",
        8 => "8",
        _ => "9",
    }
}

/// Appends the decimal notation of `n`.
pub fn push_decimal(s: &mut String, n: u64)
    ensures
        final(s)@ == old(s)@ + decimal(n as nat),
    decreases n,
{
    if n < 10 {
        s.append(digit_str(n));
    } else {
        push_decimal(s, n / 10);
        s.append(digit_str(n % 10));
        assert(decimal(n as nat) == decimal((n / 10) as nat).push(digit_char((n % 10) as nat)));
    }
}

/// The decimal notation of `n` as a new string.
pub fn decimal_string(n: u64) -> (r: String)
    ensures
        r@ == decimal(n as nat),
{
    let mut s = String::new();
    push_decimal(&mut s, n);
    assert(s@ =~= decimal(n as nat));
    s
}

} // verus!
