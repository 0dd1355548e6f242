//! Text that the listing writes: lengths, decimal numbers, padding.

use vstd::prelude::*;

verus! {

/// The character of a decimal digit.
pub open spec fn digit_char(d: nat) -> char
    recommends
        d < 10,
{
    if d == 0 {
        '0'
    } else if d == 1 {
        '1'
    } else if d == 2 {
        '2'
    } else if d == 3 {
        '3'
    } else if d == 4 {
        '4'
    } else if d == 5 {
        '5'
    } else if d == 6 {
        '6'
    } else if d == 7 {
        '7'
    } else if d == 8 {
        '8'
    } else {
        '9'
    }
}

/// A number in decimal, without sign, grouping or leading zeros.
pub open spec fn decimal(n: nat) -> Seq<char>
    decreases n,
{
    if n < 10 {
        seq![digit_char(n)]
    } else {
        decimal(n / 10).push(digit_char(n % 10))
    }
}

fn digit_str(d: u64) -> (s: &'static str)
    requires
        d < 10,
    ensures
        s@ == seq![digit_char(d as nat)],
{
    let s = if d == 0 {
        "0"
    } else if d == 1 {
        "1"
    } else if d == 2 {
        "2"
    } else if d == 3 {
        "3"
    } else if d == 4 {
        "4"
    } else if d == 5 {
        "5"
    } else if d == 6 {
        "6"
    } else if d == 7 {
        "7"
    } else if d == 8 {
        "8"
    } else {
        "9"
    };
    proof {
        reveal_strlit("0");
        reveal_strlit("1");
        reveal_strlit("2");
        reveal_strlit("3");
        reveal_strlit("4");
        reveal_strlit("5");
        reveal_strlit("6");
        reveal_strlit("7");
        reveal_strlit("8");
        reveal_strlit("9");
        assert(s@ =~= seq![digit_char(d as nat)]);
    }
    s
}

/// Writes a number in decimal.
pub fn decimal_string(n: u64) -> (s: String)
    ensures
        s@ == decimal(n as nat),
    decreases n,
{
    if n < 10 {
        String::from_str(digit_str(n))
    } else {
        let mut s = decimal_string(n / 10);
        s.append(digit_str(n % 10));
        assert(s@ =~= decimal(n as nat));
        s
    }
}

/// `count` spaces.
pub open spec fn spaces(count: nat) -> Seq<char> {
    Seq::new(count, |i: int| ' ')
}

/// A text moved to the right end of a field of `width` characters; a text
/// that is longer than the field is not cut.
pub open spec fn pad_left(text: Seq<char>, width: nat) -> Seq<char> {
    if text.len() >= width {
        text
    } else {
        spaces((width - text.len()) as nat) + text
    }
}

/// Pads a text with spaces on the left to `width` characters.
pub fn pad_left_string(text: &str, width: usize) -> (s: String)
    ensures
        s@ == pad_left(text@, width as nat),
{
    let len = text.unicode_len();
    let mut s = String::new();
    let mut filled: usize = len;
    proof {
        reveal_strlit(" ");
    }
    while filled < width
        invariant
            len == text@.len(),
            len <= filled,
            len < width ==> filled <= width,
            len >= width ==> filled == len,
            s@ == spaces((filled - len) as nat),
            " "@ == seq![' '],
        decreases width - filled,
    {
        s.append(" ");
        filled = filled + 1;
        assert(s@ =~= spaces((filled - len) as nat));
    }
    s.append(text);
    assert(s@ =~= pad_left(text@, width as nat));
    s
}

} // verus!
