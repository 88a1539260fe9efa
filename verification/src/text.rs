use vstd::prelude::*;

use crate::time::{secs_of, Span};

verus! {

/// The character of the decimal digit `d` (`0 <= d < 10`).
pub open spec fn digit_char(d: int) -> char {
    (d + 48) as char
}

/// The decimal digits of `n`, most significant first, with no leading zeros
/// (zero is the single digit `0`).
pub open spec fn decimal(n: nat) -> Seq<char>
    decreases n,
{
    if n < 10 {
        seq![digit_char(n as int)]
    } else {
        decimal(n / 10).push(digit_char((n % 10) as int))
    }
}

/// `s` preceded by as many copies of `fill` as bring it to `width` characters;
/// `s` itself where it is that long already.
pub open spec fn pad_left(s: Seq<char>, width: nat, fill: char) -> Seq<char> {
    if s.len() >= width {
        s
    } else {
        Seq::new((width - s.len()) as nat, |_i: int| fill) + s
    }
}

/// The decimal form of a signed number: a minus sign before the digits of its
/// magnitude where it is negative.
pub open spec fn signed_decimal(v: int) -> Seq<char> {
    if v < 0 {
        seq!['-'] + decimal((-v) as nat)
    } else {
        decimal(v as nat)
    }
}

/// `count` copies of the character `c`.
pub open spec fn repeat_char(c: char, count: nat) -> Seq<char> {
    Seq::new(count, |_i: int| c)
}

/// A length of time as minutes and seconds, each at least two digits wide with
/// leading zeros, joined by a colon: `mm:ss`.
pub open spec fn clock_text(total_secs: nat) -> Seq<char> {
    pad_left(decimal(total_secs / 60), 2, '0') + seq![':'] + pad_left(decimal(total_secs % 60), 2, '0')
}

/// The number of display columns that `s` takes on a terminal, as the
/// `unicode-width` crate counts them.
pub uninterp spec fn display_width(s: Seq<char>) -> nat;

/// Calls `unicode_width::UnicodeWidthStr::width`, which counts the terminal
/// columns of a string. Claimed: the result is `display_width` of the text,
/// that is, a function of the text alone.
#[verifier::external_body]
pub(crate) fn text_width(s: &str) -> (w: usize)
    ensures
        w == display_width(s@),
{
    unicode_width::UnicodeWidthStr::width(s)
}

/// The one-character text of the digit `d`.
fn digit_text(d: u64) -> (r: &'static str)
    requires
        d < 10,
    ensures
        r@ == seq![digit_char(d as int)],
{
    proof {
        reveal_strlit("0");
        reveal_strlit("1");
        reveal_strlit("2");
        reveal_strlit("3");
        reveal_strlit("4");
        reveal_strlit("5");
        reveal_strlit("6");
        reveal_strlit("7");
        reveal_strlit("8");
        reveal_strlit("9");
    }
    match d {
        0 => "0",
        1 => "1",
        2 => "2",
        3 => "3",
        4 => "4",
        5 => "5",
        6 => "6",
        7 => "7",
        8 => "8",
        _ => "9",
    }
}

/// Appends the decimal digits of `n` to `out`.
pub fn push_decimal(out: &mut String, n: u64)
    ensures
        final(out)@ == old(out)@ + decimal(n as nat),
    decreases n,
{
    if n >= 10 {
        push_decimal(out, n / 10);
    }
    let d = digit_text(n % 10);
    out.append(d);
    proof {
        if n >= 10 {
            assert(decimal(n as nat) == decimal((n / 10) as nat).push(digit_char((n % 10) as int)));
        }
    }
}

/// The decimal digits of `n`.
pub fn decimal_text(n: u64) -> (r: String)
    ensures
        r@ == decimal(n as nat),
{
    let mut s = String::new();
    push_decimal(&mut s, n);
    s
}

/// The decimal form of `v`, with a minus sign where it is negative.
pub fn signed_decimal_text(v: i64) -> (r: String)
    ensures
        r@ == signed_decimal(v as int),
{
    let mut s = String::new();
    if v < 0 {
        s.append("-");
        proof {
            reveal_strlit("-");
        }
        let magnitude: u64 = if v == i64::MIN {
            9223372036854775808u64
        } else {
            (-v) as u64
        };
        push_decimal(&mut s, magnitude);
    } else {
        push_decimal(&mut s, v as u64);
    }
    s
}

/// `count` copies of the one-character text `piece`.
pub fn repeated(piece: &str, count: usize) -> (r: String)
    requires
        piece@.len() == 1,
    ensures
        r@ == repeat_char(piece@[0], count as nat),
{
    let mut s = String::new();
    let mut i: usize = 0;
    while i < count
        invariant
            i <= count,
            piece@.len() == 1,
            s@ == repeat_char(piece@[0], i as nat),
        decreases count - i,
    {
        s.append(piece);
        i = i + 1;
        assert(s@ =~= repeat_char(piece@[0], i as nat));
    }
    s
}

/// `s` preceded by as many copies of the one-character text `fill` as bring it
/// to `width` characters.
pub fn padded_left(s: String, width: usize, fill: &str) -> (r: String)
    requires
        fill@.len() == 1,
    ensures
        r@ == pad_left(s@, width as nat, fill@[0]),
{
    let len = s.unicode_len();
    if len >= width {
        s
    } else {
        let mut r = repeated(fill, width - len);
        r.append(s.as_str());
        r
    }
}

/// A length of time as `mm:ss`: whole minutes and the seconds past them, each
/// padded with zeros to two digits.
pub fn fmt_duration(duration: Span) -> (r: String)
    ensures
        r@ == clock_text(secs_of(duration@) as nat),
{
    let time = duration.as_secs();
    let seconds = time % 60;
    let minutes = time / 60;
    proof {
        reveal_strlit("0");
        reveal_strlit(":");
    }
    let mut r = padded_left(decimal_text(minutes), 2, "0");
    r.append(":");
    let tail = padded_left(decimal_text(seconds), 2, "0");
    r.append(tail.as_str());
    r
}

} // verus!
