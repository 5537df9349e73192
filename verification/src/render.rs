use vstd::prelude::*;
use vstd::string::StringExecFns;

use crate::phase::{color_of, ColorToken, Status};
use crate::schedule::seconds_to_minutes_seconds;

verus! {

/// The character for one decimal digit.
pub open spec fn digit_char(d: int) -> char {
    if d == 0 {
        '0'
    } else if d == 1 {
        '1'
    } else if d == 2 {
        '2'
    } else if d == 3 {
        '3'
    } else if d == 4 {
        '4'
    } else if d == 5 {
        '5'
    } else if d == 6 {
        '6'
    } else if d == 7 {
        '7'
    } else if d == 8 {
        '8'
    } else {
        '9'
    }
}

/// The decimal digits of `n`, most significant first, with no leading zeros
/// (a lone zero for `n == 0`).
pub open spec fn dec_chars(n: nat) -> Seq<char>
    decreases n,
{
    if n < 10 {
        seq![digit_char(n as int)]
    } else {
        dec_chars(n / 10).push(digit_char((n % 10) as int))
    }
}

/// The decimal digits of `n`, zero-padded on the left to at least two digits.
pub open spec fn two_padded(n: nat) -> Seq<char> {
    if n < 10 {
        seq!['0', digit_char(n as int)]
    } else {
        dec_chars(n)
    }
}

/// The clock face text for a number of seconds: minutes and leftover seconds,
/// each at least two digits, separated by a colon.
pub open spec fn mm_ss(total: nat) -> Seq<char> {
    two_padded(total / 60) + seq![':'] + two_padded(total % 60)
}

/// The string for one decimal digit.
fn digit_str(d: u64) -> (r: &'static str)
    requires
        d < 10,
    ensures
        r@ == seq![digit_char(d as int)],
{
    proof {
        reveal_strlit("0");
        reveal_strlit("1");
        reveal_strlit("2");
        reveal_strlit("3");
        reveal_strlit("4");
        reveal_strlit("5");
        reveal_strlit("6");
        reveal_strlit("7");
        reveal_strlit("8");
        reveal_strlit("9");
    }
    match d {
        0 => "0",
        1 => "1",
        2 => "2",
        3 => "3",
        4 => "4",
        5 => "5",
        6 => "6",
        7 => "7",
        8 => "8",
        _ => "9",
    }
}

/// `n` written in decimal, without padding.
pub fn decimal_string(n: u64) -> (s: String)
    ensures
        s@ == dec_chars(n as nat),
    decreases n,
{
    if n < 10 {
        String::from_str(digit_str(n))
    } else {
        let mut s = decimal_string(n / 10);
        s.append(digit_str(n % 10));
        proof {
            assert(s@ =~= dec_chars(n as nat));
        }
        s
    }
}

/// `n` written in decimal, zero-padded to at least two digits.
pub fn two_padded_string(n: u64) -> (s: String)
    ensures
        s@ == two_padded(n as nat),
{
    if n < 10 {
        let mut s = String::from_str("0");
        s.append(digit_str(n));
        proof {
            reveal_strlit("0");
            assert(s@ =~= two_padded(n as nat));
        }
        s
    } else {
        decimal_string(n)
    }
}

/// The clock face text for `total` seconds, as `mm_ss` says.
pub fn mm_ss_string(total: u64) -> (s: String)
    ensures
        s@ == mm_ss(total as nat),
{
    let parts = seconds_to_minutes_seconds(total);
    let mut s = two_padded_string(parts.0);
    s.append(":");
    let tail = two_padded_string(parts.1);
    s.append(tail.as_str());
    proof {
        reveal_strlit(":");
        assert(s@ =~= mm_ss(total as nat));
    }
    s
}

/// What the block renderer makes of a text: the same text drawn as large
/// block glyphs.
pub uninterp spec fn block_of(s: Seq<char>) -> Seq<char>;

/// Relies on terminal_fonts::to_block_string: the block rendering is a pure
/// function of the text alone, laying each character out as a glyph of seven
/// rows and eight cells, the rows joined by newlines.
#[verifier::external_body]
fn to_block_string(s: &str) -> (r: String)
    ensures
        r@ == block_of(s@),
        r@.len() == 56 * s@.len() + 6,
{
    terminal_fonts::to_block_string(s)
}

/// One rendered frame: the remaining time as large block glyphs, and the
/// color to draw them in. A pure function of the status and the seconds
/// left, as the postcondition pins down; the caller only has to center the
/// returned text.
pub fn render_frame(status: &Status, left_seconds: u64) -> (r: (String, ColorToken))
    ensures
        r.0@ == block_of(mm_ss(left_seconds as nat)),
        r.0@.len() == 56 * mm_ss(left_seconds as nat).len() + 6,
        r.1 == color_of(*status),
{
    let text = mm_ss_string(left_seconds);
    let block = to_block_string(text.as_str());
    (block, status.color())
}

/// Rendering is a pure function of `(status, remaining seconds)`: two frames
/// produced from equal state are equal, character for character, and carry
/// the same color.
pub proof fn lemma_render_pure(
    status1: Status,
    left1: u64,
    frame1: Seq<char>,
    color1: ColorToken,
    status2: Status,
    left2: u64,
    frame2: Seq<char>,
    color2: ColorToken,
)
    requires
        frame1 == block_of(mm_ss(left1 as nat)),
        color1 == color_of(status1),
        frame2 == block_of(mm_ss(left2 as nat)),
        color2 == color_of(status2),
        status1 == status2,
        left1 == left2,
    ensures
        frame1 == frame2,
        color1 == color2,
{
}

} // verus!
