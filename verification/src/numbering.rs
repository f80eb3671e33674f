use vstd::prelude::*;
use crate::strbuild::push_char;

verus! {

/// The decimal digit character for d, when 0 <= d <= 9.
pub open spec fn dec_digit(d: int) -> char {
    ((d + 0x30) as u8) as char
}

/// The decimal numeral of n, most significant digit first.
pub open spec fn dec_rep(n: int) -> Seq<char>
    decreases n,
{
    if n < 10 {
        seq![dec_digit(n)]
    } else {
        dec_rep(n / 10).push(dec_digit(n % 10))
    }
}

/// k space characters.
pub open spec fn spaces(k: int) -> Seq<char>
    decreases k,
{
    if k <= 0 {
        Seq::empty()
    } else {
        spaces(k - 1).push(' ')
    }
}

/// A line number as it is emitted: its decimal numeral right-justified in a
/// field of minimum width six, followed by one tab character.
pub open spec fn number_prefix(n: int) -> Seq<char> {
    let d = dec_rep(n);
    if d.len() >= 6 {
        d.push('\t')
    } else {
        (spaces(6 - d.len()) + d).push('\t')
    }
}

fn digit_char(d: u64) -> (c: char)
    requires
        d <= 9,
    ensures
        c == dec_digit(d as int),
{
    ((d as u8) + 0x30) as char
}

/// The decimal numeral of n as a string.
pub fn format_digits(n: u64) -> (r: String)
    ensures
        r@ == dec_rep(n as int),
    decreases n,
{
    if n < 10 {
        let mut r = String::new();
        push_char(&mut r, digit_char(n));
        proof {
            assert(r@ =~= seq![dec_digit(n as int)]);
        }
        r
    } else {
        let mut r = format_digits(n / 10);
        push_char(&mut r, digit_char(n % 10));
        r
    }
}

/// The numbering prefix for line number n: right-justified in a field of
/// minimum width six, then one tab.
pub fn format_line_number(n: u64) -> (r: String)
    ensures
        r@ == number_prefix(n as int),
{
    let digits = format_digits(n);
    let len: usize = digits.as_str().unicode_len();
    let mut r = String::new();
    let mut i: usize = 0;
    let pad: usize = if len >= 6 {
        0
    } else {
        6 - len
    };
    while i < pad
        invariant
            i <= pad,
            r@ == spaces(i as int),
        decreases pad - i,
    {
        push_char(&mut r, ' ');
        i = i + 1;
    }
    r.append(digits.as_str());
    push_char(&mut r, '\t');
    proof {
        assert(r@ =~= number_prefix(n as int));
    }
    r
}

} // verus!
