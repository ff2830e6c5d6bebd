//! Verified decimal rendering of the numeric fields.

use vstd::prelude::*;
use crate::width::{plain_text, is_wide_char, push_char};

verus! {

/// The decimal digit character for `d`.
pub open spec fn digit_char(d: int) -> char {
    if d == 0 {
        '0'
    } else if d == 1 {
        '1'
    } else if d == 2 {
        '2'
    } else if d == 3 {
        '3'
    } else if d == 4 {
        '4'
    } else if d == 5 {
        '5'
    } else if d == 6 {
        '6'
    } else if d == 7 {
        '7'
    } else if d == 8 {
        '8'
    } else {
        '9'
    }
}

/// The decimal digit string of `n`, most significant digit first.
pub open spec fn dec_digits(n: nat) -> Seq<char>
    decreases n,
{
    if n < 10 {
        seq![digit_char(n as int)]
    } else {
        dec_digits(n / 10) + seq![digit_char((n % 10) as int)]
    }
}

/// The decimal string of `n`, with a leading minus sign when negative.
pub open spec fn dec_int(n: int) -> Seq<char> {
    if n < 0 {
        seq!['-'] + dec_digits((-n) as nat)
    } else {
        dec_digits(n as nat)
    }
}

/// The decimal string of `n` left-padded with zeros to three characters.
pub open spec fn pad3(n: nat) -> Seq<char> {
    if n < 10 {
        seq!['0', '0'] + dec_digits(n)
    } else if n < 100 {
        seq!['0'] + dec_digits(n)
    } else {
        dec_digits(n)
    }
}

/// `n` tenths rendered with exactly one fractional digit.
pub open spec fn tenths_str(n: nat) -> Seq<char> {
    dec_digits(n / 10) + seq!['.', digit_char((n % 10) as int)]
}

/// Every character is a decimal digit.
pub open spec fn decimal_chars(s: Seq<char>) -> bool {
    forall|i: int| 0 <= i < s.len() ==> 48 <= (#[trigger] s[i]) as u32 <= 57
}

pub proof fn lemma_dec_digits_decimal(n: nat)
    ensures
        decimal_chars(dec_digits(n)),
        dec_digits(n).len() >= 1,
    decreases n,
{
    if n >= 10 {
        lemma_dec_digits_decimal(n / 10);
    }
}

/// Digit strings are plain narrow text.
pub proof fn lemma_dec_digits_plain(n: nat)
    ensures
        plain_text(dec_digits(n)),
{
    lemma_dec_digits_decimal(n);
    assert forall|i: int| 0 <= i < dec_digits(n).len() implies dec_digits(n)[i] != '\u{1b}'
        && !is_wide_char(dec_digits(n)[i]) by {
        assert(48 <= dec_digits(n)[i] as u32 <= 57);
    }
}

pub proof fn lemma_dec_int_plain(n: int)
    ensures
        plain_text(dec_int(n)),
{
    if n < 0 {
        lemma_dec_digits_decimal((-n) as nat);
        assert forall|i: int| 0 <= i < dec_int(n).len() implies dec_int(n)[i] != '\u{1b}'
            && !is_wide_char(dec_int(n)[i]) by {
            if i > 0 {
                assert(dec_int(n)[i] == dec_digits((-n) as nat)[i - 1]);
                assert(48 <= dec_int(n)[i] as u32 <= 57);
            }
        }
    } else {
        lemma_dec_digits_plain(n as nat);
        assert(dec_int(n) == dec_digits(n as nat));
    }
}

pub proof fn lemma_tenths_plain(n: nat)
    ensures
        plain_text(tenths_str(n)),
{
    lemma_dec_digits_decimal(n / 10);
    let s = tenths_str(n);
    let d = dec_digits(n / 10);
    assert forall|i: int| 0 <= i < s.len() implies s[i] != '\u{1b}' && !is_wide_char(s[i]) by {
        if i < d.len() {
            assert(s[i] == d[i]);
            assert(48 <= s[i] as u32 <= 57);
        } else {
            assert(s[i] == seq!['.', digit_char((n % 10) as int)][i - d.len()]);
        }
    }
}

fn digit_to_char(d: u32) -> (c: char)
    requires
        d < 10,
    ensures
        c == digit_char(d as int),
{
    if d == 0 {
        '0'
    } else if d == 1 {
        '1'
    } else if d == 2 {
        '2'
    } else if d == 3 {
        '3'
    } else if d == 4 {
        '4'
    } else if d == 5 {
        '5'
    } else if d == 6 {
        '6'
    } else if d == 7 {
        '7'
    } else if d == 8 {
        '8'
    } else {
        '9'
    }
}

/// Render `n` in decimal.
pub fn format_u32(n: u32) -> (r: String)
    ensures
        r@ == dec_digits(n as nat),
    decreases n,
{
    if n < 10 {
        let mut s = String::new();
        push_char(&mut s, digit_to_char(n));
        proof {
            assert(s@ =~= dec_digits(n as nat));
        }
        s
    } else {
        assert(n / 10 < n);
        let mut s = format_u32(n / 10);
        push_char(&mut s, digit_to_char(n % 10));
        proof {
            assert(s@ =~= dec_digits(n as nat));
        }
        s
    }
}

/// Render `n` in decimal, minus sign included.
pub fn format_i32(n: i32) -> (r: String)
    ensures
        r@ == dec_int(n as int),
{
    if n >= 0 {
        format_u32(n as u32)
    } else {
        let mag: u32 = (-(n as i64)) as u32;
        assert(mag as int == -(n as int));
        let mut s = String::new();
        push_char(&mut s, '-');
        let d = format_u32(mag);
        s.append(d.as_str());
        proof {
            assert(s@ =~= dec_int(n as int));
        }
        s
    }
}

/// Render `n` in decimal, zero-padded to three characters.
pub fn format_u32_pad3(n: u32) -> (r: String)
    ensures
        r@ == pad3(n as nat),
{
    let mut s = String::new();
    if n < 10 {
        push_char(&mut s, '0');
        push_char(&mut s, '0');
    } else if n < 100 {
        push_char(&mut s, '0');
    }
    let d = format_u32(n);
    s.append(d.as_str());
    proof {
        assert(s@ =~= pad3(n as nat));
    }
    s
}

/// Render a count of tenths with one fractional digit.
pub fn format_tenths(n: u32) -> (r: String)
    ensures
        r@ == tenths_str(n as nat),
{
    let mut s = format_u32(n / 10);
    push_char(&mut s, '.');
    push_char(&mut s, digit_to_char(n % 10));
    proof {
        assert(s@ =~= tenths_str(n as nat));
    }
    s
}

} // verus!
