//! Small text helpers: centering and decimal formatting.

use vstd::prelude::*;

use crate::grapheme::chars_to_string;
use crate::grapheme::str_to_chars;

verus! {

/// The character for one decimal digit.
pub open spec fn spec_digit_char(d: nat) -> char {
    if d == 0 {
        '0'
    } else if d == 1 {
        '1'
    } else if d == 2 {
        '2'
    } else if d == 3 {
        '3'
    } else if d == 4 {
        '4'
    } else if d == 5 {
        '5'
    } else if d == 6 {
        '6'
    } else if d == 7 {
        '7'
    } else if d == 8 {
        '8'
    } else {
        '9'
    }
}

/// The decimal digits of `n`, most significant first.
pub open spec fn spec_decimal(n: nat) -> Seq<char>
    decreases n,
{
    if n < 10 {
        seq![spec_digit_char(n)]
    } else {
        spec_decimal(n / 10).push(spec_digit_char(n % 10))
    }
}

fn digit_char(d: usize) -> (r: char)
    requires
        d < 10,
    ensures
        r == spec_digit_char(d as nat),
{
    if d == 0 {
        '0'
    } else if d == 1 {
        '1'
    } else if d == 2 {
        '2'
    } else if d == 3 {
        '3'
    } else if d == 4 {
        '4'
    } else if d == 5 {
        '5'
    } else if d == 6 {
        '6'
    } else if d == 7 {
        '7'
    } else if d == 8 {
        '8'
    } else {
        '9'
    }
}

fn push_decimal(out: &mut Vec<char>, n: usize)
    ensures
        final(out)@ == old(out)@ + spec_decimal(n as nat),
    decreases n,
{
    if n < 10 {
        out.push(digit_char(n));
        proof {
            assert(old(out)@ + spec_decimal(n as nat) =~= old(out)@.push(
                spec_digit_char(n as nat),
            ));
        }
    } else {
        push_decimal(out, n / 10);
        out.push(digit_char(n % 10));
        proof {
            assert(old(out)@ + spec_decimal(n as nat) =~= (old(out)@ + spec_decimal(
                n as nat / 10,
            )).push(spec_digit_char(n as nat % 10)));
        }
    }
}

/// `n` written in decimal.
pub fn decimal_string(n: usize) -> (r: String)
    ensures
        r@ == spec_decimal(n as nat),
{
    let mut digits: Vec<char> = Vec::new();
    push_decimal(&mut digits, n);
    proof {
        assert(Seq::<char>::empty() + spec_decimal(n as nat) =~= spec_decimal(n as nat));
    }
    chars_to_string(&digits)
}

/// `content` centered in a field of `text_width` characters: preceded by
/// half the free space and cut off at the field's end. Nothing is added
/// after the content.
pub open spec fn spec_centered_text(content: Seq<char>, text_width: int) -> Seq<char> {
    let pad = if text_width >= content.len() {
        (text_width - content.len()) / 2
    } else {
        0
    };
    let padded = Seq::new(pad as nat, |i: int| ' ') + content;
    if text_width <= padded.len() {
        padded.take(text_width)
    } else {
        padded
    }
}

/// Centers `content` in a field of `text_width` characters.
pub fn centered_text(content: &str, text_width: usize) -> (r: String)
    ensures
        r@ == spec_centered_text(content@, text_width as int),
{
    let chars = str_to_chars(content);
    let pad = text_width.saturating_sub(chars.len()) / 2;
    let mut out: Vec<char> = Vec::new();
    let mut i: usize = 0;
    while i < pad
        invariant
            i <= pad,
            out@ =~= Seq::new(i as nat, |k: int| ' '),
        decreases pad - i,
    {
        out.push(' ');
        proof {
            assert(out@ =~= Seq::new((i + 1) as nat, |k: int| ' '));
        }
        i = i + 1;
    }
    let ghost spaces = out@;
    let mut j: usize = 0;
    while j < chars.len()
        invariant
            j <= chars@.len(),
            out@ == spaces + chars@.take(j as int),
        decreases chars@.len() - j,
    {
        out.push(chars[j]);
        proof {
            assert(spaces + chars@.take(j + 1) =~= (spaces + chars@.take(j as int)).push(
                chars@[j as int],
            ));
        }
        j = j + 1;
    }
    proof {
        assert(chars@.take(chars@.len() as int) =~= chars@);
    }
    out.truncate(text_width);
    proof {
        let padded = spaces + chars@;
        if text_width <= padded.len() {
            assert(out@ =~= padded.take(text_width as int));
        }
    }
    chars_to_string(&out)
}

} // verus!
