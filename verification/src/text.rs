//! Numbers written out in decimal, and the length of a text in bytes.

use vstd::prelude::*;
use vstd::string::*;

verus! {

/// The length of a text: the number of bytes of its UTF-8 encoding.
pub open spec fn utf8_len(text: Seq<char>) -> nat {
    vstd::utf8::encode_utf8(text).len()
}

/// The length of `text` in bytes.
pub fn text_len(text: &String) -> (len: usize)
    ensures
        len == utf8_len(text@),
{
    text.as_str().as_bytes().len()
}

/// The character that stands for the digit `d`.
pub open spec fn digit_char(d: nat) -> char
    recommends
        d < 10,
{
    if d == 0 {
        '0'
    } else if d == 1 {
        '1'
    } else if d == 2 {
        '2'
    } else if d == 3 {
        '3'
    } else if d == 4 {
        '4'
    } else if d == 5 {
        '5'
    } else if d == 6 {
        '6'
    } else if d == 7 {
        '7'
    } else if d == 8 {
        '8'
    } else {
        '9'
    }
}

/// `n` in decimal, without leading zeros.
pub open spec fn decimal(n: nat) -> Seq<char>
    decreases n,
{
    if n < 10 {
        seq![digit_char(n)]
    } else {
        decimal(n / 10).push(digit_char(n % 10))
    }
}

/// `n` in decimal, with a minus sign in front of a negative number.
pub open spec fn signed_decimal(n: int) -> Seq<char> {
    if n < 0 {
        seq!['-'] + decimal((-n) as nat)
    } else {
        decimal(n as nat)
    }
}

fn digit_str(d: u8) -> (s: &'static str)
    requires
        d < 10,
    ensures
        s@ == seq![digit_char(d as nat)],
{
    proof {
        reveal_strlit("0");
        reveal_strlit("1");
        reveal_strlit("2");
        reveal_strlit("3");
        reveal_strlit("4");
        reveal_strlit("5");
        reveal_strlit("6");
        reveal_strlit("7");
        reveal_strlit("8");
        reveal_strlit("9");
    }
    let s = match d {
        0 => "0",
        1 => "1",
        2 => "2",
        3 => "3",
        4 => "4",
        5 => "5",
        6 => "6",
        7 => "7",
        8 => "8",
        _ => "9",
    };
    s
}

/// Appends `n` in decimal to `out`.
pub fn push_decimal(out: &mut String, n: u128)
    ensures
        final(out)@ == old(out)@ + decimal(n as nat),
    decreases n,
{
    if n >= 10 {
        push_decimal(out, n / 10);
    }
    let digit: u8 = (n % 10) as u8;
    out.append(digit_str(digit));
}

/// Appends `n` in decimal to `out`, with its sign where it is negative.
pub fn push_signed_decimal(out: &mut String, n: i128)
    ensures
        final(out)@ == old(out)@ + signed_decimal(n as int),
{
    if n < 0 {
        proof {
            reveal_strlit("-");
        }
        out.append("-");
        let magnitude: u128 = if n == i128::MIN {
            170141183460469231731687303715884105728u128
        } else {
            (-n) as u128
        };
        push_decimal(out, magnitude);
    } else {
        push_decimal(out, n as u128);
    }
}

} // verus!
