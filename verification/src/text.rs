//! Plain-text pieces that the trace output is assembled from: numbers in
//! base ten and sixteen, and right alignment in a field of a minimum width.

use vstd::prelude::*;
use vstd::string::StrSliceExecFns;
use vstd::string::StringExecFns;

verus! {

/// `String::push` of the standard library. Trusted: after the call the text
/// is what it was before, followed by `ch`.
pub assume_specification[ String::push ](s: &mut String, ch: char)
    ensures
        final(s)@ == old(s)@.push(ch),
;

/// The character for one digit below sixteen: `0` to `9`, then `a` to `f`.
pub open spec fn digit(d: nat) -> char {
    if d < 10 {
        ((48 + d) as u8) as char
    } else {
        ((87 + d) as u8) as char
    }
}

/// `n` in base ten, most significant digit first, without leading zeros.
pub open spec fn decimal(n: nat) -> Seq<char>
    decreases n,
{
    if n < 10 {
        seq![digit(n)]
    } else {
        decimal(n / 10).push(digit(n % 10))
    }
}

/// `n` in base sixteen with lower-case letters, most significant digit
/// first, without leading zeros and without a prefix.
pub open spec fn hexadecimal(n: nat) -> Seq<char>
    decreases n,
{
    if n < 16 {
        seq![digit(n)]
    } else {
        hexadecimal(n / 16).push(digit(n % 16))
    }
}

/// `text` moved to the right end of a field of `width` characters, filled
/// with spaces on the left. A text that is already that wide is unchanged.
pub open spec fn right_aligned(text: Seq<char>, width: nat) -> Seq<char> {
    if text.len() >= width {
        text
    } else {
        Seq::new((width - text.len()) as nat, |i: int| ' ') + text
    }
}

/// The character for the digit `d`.
fn digit_char(d: u8) -> (c: char)
    requires
        d < 16,
    ensures
        c == digit(d as nat),
{
    if d < 10 {
        (48 + d) as char
    } else {
        (87 + d) as char
    }
}

/// Appends `n` in base ten to `out`.
pub fn push_decimal(out: &mut String, n: u64)
    ensures
        final(out)@ == old(out)@ + decimal(n as nat),
    decreases n,
{
    if n >= 10 {
        push_decimal(out, n / 10);
    }
    out.push(digit_char((n % 10) as u8));
    assert(out@ =~= old(out)@ + decimal(n as nat));
}

/// Appends `n` in base sixteen to `out`.
pub fn push_hexadecimal(out: &mut String, n: u64)
    ensures
        final(out)@ == old(out)@ + hexadecimal(n as nat),
    decreases n,
{
    if n >= 16 {
        push_hexadecimal(out, n / 16);
    }
    out.push(digit_char((n % 16) as u8));
    assert(out@ =~= old(out)@ + hexadecimal(n as nat));
}

/// Appends `text` to `out`, after as many spaces as it takes to fill
/// `width` characters.
pub fn push_right_aligned(out: &mut String, text: &str, width: usize)
    ensures
        final(out)@ == old(out)@ + right_aligned(text@, width as nat),
{
    let len = text.unicode_len();
    let mut filled: usize = len;
    while filled < width
        invariant
            len == text@.len(),
            len <= filled,
            len < width ==> filled <= width,
            len >= width ==> filled == len,
            out@ == old(out)@ + Seq::new((filled - len) as nat, |i: int| ' '),
        decreases width - filled,
    {
        out.push(' ');
        filled = filled + 1;
        assert(out@ =~= old(out)@ + Seq::new((filled - len) as nat, |i: int| ' '));
    }
    out.append(text);
    assert(out@ =~= old(out)@ + right_aligned(text@, width as nat));
}

} // verus!
