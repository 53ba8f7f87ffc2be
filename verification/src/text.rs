//! Decimal text of integers.

use vstd::prelude::*;
use vstd::string::StringExecFns;

verus! {

/// The character of the decimal digit `d`.
pub open spec fn digit_char(d: int) -> char {
    if d == 0 {
        '0'
    } else if d == 1 {
        '1'
    } else if d == 2 {
        '2'
    } else if d == 3 {
        '3'
    } else if d == 4 {
        '4'
    } else if d == 5 {
        '5'
    } else if d == 6 {
        '6'
    } else if d == 7 {
        '7'
    } else if d == 8 {
        '8'
    } else {
        '9'
    }
}

/// The decimal digits of `n`, most significant first, without leading zeros.
pub open spec fn decimal(n: nat) -> Seq<char>
    decreases n,
{
    if n < 10 {
        seq![digit_char(n as int)]
    } else {
        decimal(n / 10).push(digit_char((n % 10) as int))
    }
}

/// `n` in decimal, with zeros in front up to `width` characters.
pub open spec fn zero_padded(n: nat, width: nat) -> Seq<char> {
    if decimal(n).len() >= width {
        decimal(n)
    } else {
        Seq::new((width - decimal(n).len()) as nat, |i: int| '0') + decimal(n)
    }
}

/// `value` in decimal, with a minus sign in front if it is negative.
pub open spec fn signed_decimal(value: int) -> Seq<char> {
    if value < 0 {
        seq!['-'] + decimal((-value) as nat)
    } else {
        decimal(value as nat)
    }
}

fn digit_str(d: u64) -> (r: &'static str)
    requires
        d < 10,
    ensures
        r@ == seq![digit_char(d as int)],
{
    proof {
        reveal_strlit("0");
        reveal_strlit("1");
        reveal_strlit("2");
        reveal_strlit("3");
        reveal_strlit("4");
        reveal_strlit("5");
        reveal_strlit("6");
        reveal_strlit("7");
        reveal_strlit("8");
        reveal_strlit("9");
    }
    let r = if d == 0 {
        "0"
    } else if d == 1 {
        "1"
    } else if d == 2 {
        "2"
    } else if d == 3 {
        "3"
    } else if d == 4 {
        "4"
    } else if d == 5 {
        "5"
    } else if d == 6 {
        "6"
    } else if d == 7 {
        "7"
    } else if d == 8 {
        "8"
    } else {
        "9"
    };
    r
}

/// Number of decimal digits of `n`.
pub fn decimal_len(n: u64) -> (r: usize)
    ensures
        r == decimal(n as nat).len(),
        1 <= r <= 20,
    decreases n,
{
    if n < 10 {
        1
    } else {
        let r: usize = decimal_len(n / 10);
        proof {
            lemma_decimal_len_bound(n);
        }
        r + 1
    }
}

/// A number below ten to the `k` has at most `k` digits; a `u64` has at most twenty.
proof fn lemma_decimal_len_bound(n: u64)
    ensures
        decimal(n as nat).len() <= 20,
{
    reveal_with_fuel(decimal, 21);
}

/// Appends `n` in decimal to `out`.
pub fn push_decimal(out: &mut String, n: u64)
    ensures
        final(out)@ == old(out)@ + decimal(n as nat),
    decreases n,
{
    if n >= 10 {
        push_decimal(out, n / 10);
    }
    out.append(digit_str(n % 10));
}

/// Appends `n` in decimal to `out`, with zeros in front up to `width` characters.
pub fn push_zero_padded(out: &mut String, n: u64, width: usize)
    ensures
        final(out)@ == old(out)@ + zero_padded(n as nat, width as nat),
{
    let len: usize = decimal_len(n);
    let mut k: usize = len;
    while k < width
        invariant
            len == decimal(n as nat).len(),
            len <= k,
            k <= width || k == len,
            out@ == old(out)@ + Seq::new((k - len) as nat, |i: int| '0'),
        decreases width - k,
    {
        proof {
            reveal_strlit("0");
        }
        out.append("0");
        k += 1;
    }
    push_decimal(out, n);
}

/// Appends `value` in decimal to `out`, with a minus sign if it is negative.
pub fn push_signed_decimal(out: &mut String, value: i64)
    ensures
        final(out)@ == old(out)@ + signed_decimal(value as int),
{
    if value < 0 {
        proof {
            reveal_strlit("-");
        }
        out.append("-");
        let magnitude: u64 = (-(value + 1)) as u64 + 1;
        push_decimal(out, magnitude);
    } else {
        push_decimal(out, value as u64);
    }
}

/// `value` in decimal.
pub fn signed_decimal_string(value: i64) -> (r: String)
    ensures
        r@ == signed_decimal(value as int),
{
    let mut r = String::new();
    push_signed_decimal(&mut r, value);
    r
}

} // verus!
