//! Decimal text of integers.

use vstd::prelude::*;
use vstd::string::*;

verus! {

/// The character of one decimal digit.
pub open spec fn digit_char(d: int) -> char {
    if d == 0 {
        '0'
    } else if d == 1 {
        '1'
    } else if d == 2 {
        '2'
    } else if d == 3 {
        '3'
    } else if d == 4 {
        '4'
    } else if d == 5 {
        '5'
    } else if d == 6 {
        '6'
    } else if d == 7 {
        '7'
    } else if d == 8 {
        '8'
    } else {
        '9'
    }
}

/// The decimal digits of a natural number, most significant first, without
/// leading zeros.
pub open spec fn decimal(n: nat) -> Seq<char>
    decreases n,
{
    if n < 10 {
        seq![digit_char(n as int)]
    } else {
        decimal(n / 10).push(digit_char((n % 10) as int))
    }
}

/// The decimal text of an integer: a minus sign before the digits of a
/// negative number, no sign otherwise.
pub open spec fn signed_decimal(i: int) -> Seq<char> {
    if i < 0 {
        seq!['-'] + decimal((-i) as nat)
    } else {
        decimal(i as nat)
    }
}

/// Every number has a digit.
pub proof fn lemma_decimal_not_empty(n: nat)
    ensures
        decimal(n).len() >= 1,
        n >= 10 ==> decimal(n).len() >= 2,
    decreases n,
{
    if n >= 10 {
        lemma_decimal_not_empty(n / 10);
    }
}

/// No two numbers have the same decimal digits.
pub proof fn lemma_decimal_injective(a: nat, b: nat)
    requires
        decimal(a) == decimal(b),
    ensures
        a == b,
    decreases a,
{
    lemma_decimal_not_empty(a);
    lemma_decimal_not_empty(b);
    if a >= 10 && b >= 10 {
        let high = decimal(a / 10);
        let low = digit_char((a % 10) as int);
        assert(high.push(low).drop_last() =~= high);
        assert(high.push(low).last() == low);
        let other_high = decimal(b / 10);
        let other_low = digit_char((b % 10) as int);
        assert(other_high.push(other_low).drop_last() =~= other_high);
        assert(other_high.push(other_low).last() == other_low);
        assert(high == other_high);
        assert(low == other_low);
        lemma_decimal_injective(a / 10, b / 10);
        assert(a % 10 == b % 10);
    } else if a < 10 && b < 10 {
        assert(decimal(a)[0] == digit_char(a as int));
        assert(decimal(b)[0] == digit_char(b as int));
    }
}

/// The text of one decimal digit.
pub(crate) fn digit_str(d: u8) -> (s: &'static str)
    requires
        d < 10,
    ensures
        s@ == seq![digit_char(d as int)],
{
    proof {
        reveal_strlit("0");
        reveal_strlit("1");
        reveal_strlit("2");
        reveal_strlit("3");
        reveal_strlit("4");
        reveal_strlit("5");
        reveal_strlit("6");
        reveal_strlit("7");
        reveal_strlit("8");
        reveal_strlit("9");
    }
    let s: &'static str = match d {
        0 => "0",
        1 => "1",
        2 => "2",
        3 => "3",
        4 => "4",
        5 => "5",
        6 => "6",
        7 => "7",
        8 => "8",
        _ => "9",
    };
    assert(s@ =~= seq![digit_char(d as int)]);
    s
}

/// Appends the decimal digits of `n` to `out`.
pub fn push_decimal(out: &mut String, n: usize)
    ensures
        final(out)@ == old(out)@ + decimal(n as nat),
    decreases n,
{
    if n < 10 {
        out.append(digit_str(n as u8));
    } else {
        push_decimal(out, n / 10);
        out.append(digit_str((n % 10) as u8));
        assert(final(out)@ =~= old(out)@ + decimal(n as nat));
    }
}

/// The decimal text of `n`.
pub fn usize_to_decimal(n: usize) -> (s: String)
    ensures
        s@ == decimal(n as nat),
{
    let mut s = String::new();
    push_decimal(&mut s, n);
    assert(s@ =~= decimal(n as nat));
    s
}

/// The decimal text of `i`, with a minus sign where it is negative.
pub fn isize_to_decimal(i: isize) -> (s: String)
    ensures
        s@ == signed_decimal(i as int),
{
    if i < 0 {
        let below: usize = (-(i + 1)) as usize;
        let mut s = String::from_str("-");
        proof {
            reveal_strlit("-");
        }
        push_decimal(&mut s, below + 1);
        assert(s@ =~= signed_decimal(i as int));
        s
    } else {
        usize_to_decimal(i as usize)
    }
}

} // verus!
