//! Decimal text of integers, as `core::fmt` writes them with `{}`, `{:0w}` and `{:w}`.
use vstd::prelude::*;

verus! {

/// The character of a decimal digit.
pub open spec fn digit_char(d: nat) -> char {
    ((48 + d) as u32) as char
}

/// The decimal digits of `n`, without leading zeros (`"0"` for zero).
pub open spec fn decimal(n: nat) -> Seq<char>
    decreases n,
{
    if n < 10 {
        seq![digit_char(n)]
    } else {
        decimal(n / 10).push(digit_char(n % 10))
    }
}

/// `s` right-aligned in a field of `width` characters, filled on the left with `fill`.
pub open spec fn pad_left(s: Seq<char>, width: nat, fill: char) -> Seq<char> {
    if s.len() >= width {
        s
    } else {
        Seq::new((width - s.len()) as nat, |i: int| fill) + s
    }
}

/// `{:0w}` of a non-negative number: zeros on the left.
pub open spec fn zero_padded(n: nat, width: nat) -> Seq<char> {
    pad_left(decimal(n), width, '0')
}

/// `{:w}` of a non-negative number: spaces on the left.
pub open spec fn space_padded(n: nat, width: nat) -> Seq<char> {
    pad_left(decimal(n), width, ' ')
}

/// Division that rounds toward zero, as `/` on `i32` does (`b > 0`).
pub open spec fn trunc_div(a: int, b: int) -> int {
    if a >= 0 {
        a / b
    } else {
        -((-a) / b)
    }
}

/// The remainder that goes with `trunc_div`, as `%` on `i32` computes it.
pub open spec fn trunc_rem(a: int, b: int) -> int {
    a - b * trunc_div(a, b)
}

/// `String::push`: the character is appended.
#[verifier::external_body]
pub(crate) fn push_char(s: &mut String, c: char)
    ensures
        final(s)@ == old(s)@.push(c),
{
    s.push(c);
}

pub fn digit(d: u32) -> (c: char)
    requires
        d < 10,
    ensures
        c == digit_char(d as nat),
{
    let b: u8 = 48u8 + (d as u8);
    b as char
}

/// Appends the decimal digits of `n`.
pub fn push_decimal(s: &mut String, n: u64)
    ensures
        final(s)@ == old(s)@ + decimal(n as nat),
    decreases n,
{
    if n >= 10 {
        push_decimal(s, n / 10);
    }
    push_char(s, digit((n % 10) as u32));
    proof {
        if n < 10 {
            assert(n % 10 == n);
        }
    }
}

/// The number of decimal digits of `n`.
pub fn decimal_len(n: u64) -> (len: u64)
    ensures
        len == decimal(n as nat).len(),
        1 <= len <= n as int + 1,
    decreases n,
{
    if n < 10 {
        1
    } else {
        decimal_len(n / 10) + 1
    }
}

/// Appends `c` `count` times.
pub fn push_fill(s: &mut String, c: char, count: usize)
    ensures
        final(s)@ == old(s)@ + Seq::new(count as nat, |i: int| c),
{
    let ghost start = s@;
    let mut k: usize = 0;
    while k < count
        invariant
            k <= count,
            s@ == start + Seq::new(k as nat, |i: int| c),
        decreases count - k,
    {
        push_char(s, c);
        k = k + 1;
        assert(s@ =~= start + Seq::new(k as nat, |i: int| c));
    }
}

/// Appends `n` right-aligned in `width` characters, filled with `fill` on the left.
pub fn push_padded(s: &mut String, n: u64, width: usize, fill: char)
    ensures
        final(s)@ == old(s)@ + pad_left(decimal(n as nat), width as nat, fill),
{
    let len = decimal_len(n);
    let ghost start = s@;
    if len < width as u64 {
        push_fill(s, fill, (width as u64 - len) as usize);
    }
    push_decimal(s, n);
    assert(s@ =~= start + pad_left(decimal(n as nat), width as nat, fill));
}

/// Ten to the power `k`.
pub open spec fn pow10(k: nat) -> nat
    decreases k,
{
    if k == 0 {
        1
    } else {
        10 * pow10((k - 1) as nat)
    }
}

/// A number below `10^k` has at most `k` digits.
pub proof fn lemma_decimal_len(n: nat, k: nat)
    requires
        1 <= k,
        n < pow10(k),
    ensures
        decimal(n).len() <= k,
    decreases k,
{
    if n >= 10 {
        if k == 1 {
            assert(pow10(1) == 10) by {
                reveal_with_fuel(pow10, 2);
            }
        } else {
            assert(pow10(k) == 10 * pow10((k - 1) as nat));
            assert(n / 10 < pow10((k - 1) as nat));
            lemma_decimal_len(n / 10, (k - 1) as nat);
        }
    }
}

/// A number below `10^10`, such as any `u32`, has at most ten digits.
pub proof fn lemma_decimal_len_10(n: nat)
    requires
        n < 10000000000,
    ensures
        decimal(n).len() <= 10,
{
    assert(pow10(10) == 10000000000) by {
        reveal_with_fuel(pow10, 11);
    }
    lemma_decimal_len(n, 10);
}

/// A number whose decimal text has at most three digits is below a thousand.
pub proof fn lemma_three_digits(n: nat)
    requires
        decimal(n).len() <= 3,
    ensures
        n < 1000,
{
    if n >= 1000 {
        assert(decimal(n).len() == decimal(n / 10).len() + 1);
        assert(decimal(n / 10).len() == decimal(n / 100).len() + 1);
        assert(decimal(n / 100).len() == decimal(n / 1000).len() + 1);
        assert(decimal(n / 1000).len() >= 1);
    }
}

} // verus!
