//! Decimal numerals, for line numbers and for cursor addresses.

use vstd::prelude::*;

verus! {

/// The character of the decimal digit `d`.
pub open spec fn digit(d: nat) -> char
    recommends
        d < 10,
{
    (('0' as nat) + d) as char
}

/// The decimal numeral of `n`, without leading zeros.
pub open spec fn decimal(n: nat) -> Seq<char>
    decreases n,
{
    if n < 10 {
        seq![digit(n)]
    } else {
        decimal(n / 10).push(digit(n % 10))
    }
}

/// `width` spaces.
pub open spec fn spaces(width: nat) -> Seq<char> {
    Seq::new(width, |i: int| ' ')
}

/// The decimal numeral of `n`, with spaces in front of it so that it fills
/// `width` characters. A numeral longer than `width` is not cut.
pub open spec fn right_aligned(n: nat, width: nat) -> Seq<char> {
    if decimal(n).len() < width {
        spaces((width - decimal(n).len()) as nat) + decimal(n)
    } else {
        decimal(n)
    }
}

/// A numeral has at least one digit, and a larger number has no shorter
/// numeral.
pub proof fn lemma_decimal_len(a: nat, b: nat)
    requires
        a <= b,
    ensures
        1 <= decimal(a).len() <= decimal(b).len(),
    decreases b,
{
    if b >= 10 {
        if a >= 10 {
            lemma_decimal_len(a / 10, b / 10);
        } else {
            lemma_decimal_len(b / 10, b / 10);
        }
    }
}

/// The character of the decimal digit `d`.
pub fn digit_char(d: u8) -> (c: char)
    requires
        d < 10,
    ensures
        c == digit(d as nat),
{
    match d {
        0 => '0',
        1 => '1',
        2 => '2',
        3 => '3',
        4 => '4',
        5 => '5',
        6 => '6',
        7 => '7',
        8 => '8',
        _ => '9',
    }
}

/// The number of digits in the decimal numeral of `n`.
pub fn count_digits(n: usize) -> (len: usize)
    ensures
        len == decimal(n as nat).len(),
        1 <= len,
{
    let mut len: usize = 1;
    let mut rest: usize = n;
    while rest >= 10
        invariant
            1 <= len,
            len + decimal(rest as nat).len() == decimal(n as nat).len() + 1,
            len + rest <= n + 1,
        decreases rest,
    {
        rest = rest / 10;
        len += 1;
    }
    len
}

/// Appends the decimal numeral of `n` to `out`.
pub fn push_decimal(out: &mut String, n: usize)
    ensures
        final(out)@ == old(out)@ + decimal(n as nat),
    decreases n,
{
    if n >= 10 {
        push_decimal(out, n / 10);
    }
    let d: u8 = (n % 10) as u8;
    out.push(digit_char(d));
    assert(final(out)@ =~= old(out)@ + decimal(n as nat));
}

/// Appends `width` spaces to `out`.
pub fn push_spaces(out: &mut String, width: usize)
    ensures
        final(out)@ == old(out)@ + spaces(width as nat),
{
    let mut i: usize = 0;
    while i < width
        invariant
            i <= width,
            out@ == old(out)@ + spaces(i as nat),
        decreases width - i,
    {
        out.push(' ');
        assert(out@ =~= old(out)@ + spaces((i + 1) as nat));
        i += 1;
    }
}

/// Appends the decimal numeral of `n` to `out`, right-aligned in `width`
/// characters.
pub fn push_right_aligned(out: &mut String, n: usize, width: usize)
    ensures
        final(out)@ == old(out)@ + right_aligned(n as nat, width as nat),
{
    let len = count_digits(n);
    if len < width {
        push_spaces(out, width - len);
    }
    push_decimal(out, n);
    assert(out@ =~= old(out)@ + right_aligned(n as nat, width as nat));
}

} // verus!
