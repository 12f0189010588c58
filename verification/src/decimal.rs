//! Decimal notation of integers.

use vstd::prelude::*;
use vstd::string::*;

verus! {

/// The character that stands for the digit `d`, for `d` in `0..=9`.
pub open spec fn digit_char(d: int) -> char {
    seq!['0', '1', '2', '3', '4', '5', '6', '7', '8', '9'][d]
}

/// The decimal notation of `n`: most significant digit first, no sign, and no
/// leading zero except for zero itself.
pub open spec fn decimal(n: nat) -> Seq<char>
    decreases n,
{
    if n < 10 {
        seq![digit_char(n as int)]
    } else {
        decimal(n / 10).push(digit_char((n % 10) as int))
    }
}

/// The decimal notation of `i`, with a leading `-` for negative numbers.
pub open spec fn signed_decimal(i: int) -> Seq<char> {
    if i < 0 {
        seq!['-'] + decimal((-i) as nat)
    } else {
        decimal(i as nat)
    }
}

/// Whether `c` is one of the ten digits.
pub open spec fn is_digit(c: char) -> bool {
    exists|d: int| 0 <= d <= 9 && c == #[trigger] digit_char(d)
}

/// The digit that the character `c` stands for, for `c` a digit.
pub open spec fn digit_value(c: char) -> int {
    choose|d: int| 0 <= d <= 9 && c == #[trigger] digit_char(d)
}

/// The number that a row of digits stands for, read as decimal notation.
pub open spec fn decimal_value(digits: Seq<char>) -> int
    decreases digits.len(),
{
    if digits.len() == 0 {
        0
    } else {
        10 * decimal_value(digits.drop_last()) + digit_value(digits.last())
    }
}

/// Each digit has a character of its own.
pub proof fn lemma_digit_value(d: int)
    requires
        0 <= d <= 9,
    ensures
        is_digit(digit_char(d)),
        digit_value(digit_char(d)) == d,
{
    let c = digit_char(d);
    let back = digit_value(c);
    assert(0 <= back <= 9 && c == digit_char(back));
}

/// The notation of a number is one digit or more, holds digits only, and
/// starts with `0` for zero alone.
pub proof fn lemma_decimal_is_canonical(n: nat)
    ensures
        decimal(n).len() >= 1,
        forall|i: int| 0 <= i < decimal(n).len() ==> is_digit(#[trigger] decimal(n)[i]),
        decimal(n)[0] == '0' <==> n == 0,
    decreases n,
{
    lemma_digit_value((n % 10) as int);
    if n >= 10 {
        lemma_decimal_is_canonical(n / 10);
    }
}

/// Read as decimal notation, the notation of a number gives the number back:
/// no two numbers are written alike.
pub proof fn lemma_decimal_reads_back(n: nat)
    ensures
        decimal_value(decimal(n)) == n,
    decreases n,
{
    lemma_digit_value((n % 10) as int);
    if n < 10 {
        assert(decimal(n).drop_last() =~= Seq::<char>::empty());
        assert(decimal_value(decimal(n).drop_last()) == 0);
    } else {
        lemma_decimal_reads_back(n / 10);
        assert(decimal(n).drop_last() =~= decimal(n / 10));
    }
}

/// The one-character string for the digit `d`.
fn digit_str(d: u8) -> (s: &'static str)
    requires
        d < 10,
    ensures
        s@ == seq![digit_char(d as int)],
{
    proof {
        reveal_strlit("0");
        reveal_strlit("1");
        reveal_strlit("2");
        reveal_strlit("3");
        reveal_strlit("4");
        reveal_strlit("5");
        reveal_strlit("6");
        reveal_strlit("7");
        reveal_strlit("8");
        reveal_strlit("9");
    }
    let s = match d {
        0 => "0",
        1 => "1",
        2 => "2",
        3 => "3",
        4 => "4",
        5 => "5",
        6 => "6",
        7 => "7",
        8 => "8",
        _ => "9",
    };
    assert(s@ =~= seq![digit_char(d as int)]);
    s
}

/// Appends the decimal notation of `n` to `out`.
pub fn append_unsigned(out: &mut String, n: u128)
    ensures
        final(out)@ == old(out)@ + decimal(n as nat),
    decreases n,
{
    if n >= 10 {
        append_unsigned(out, n / 10);
    }
    let last: u8 = (n % 10) as u8;
    out.append(digit_str(last));
    assert(out@ =~= old(out)@ + decimal(n as nat));
}

/// The decimal notation of `n` as a string.
pub fn unsigned_to_string(n: u128) -> (out: String)
    ensures
        out@ == decimal(n as nat),
{
    let mut out = String::new();
    append_unsigned(&mut out, n);
    assert(out@ =~= decimal(n as nat));
    out
}

/// The decimal notation of `i` as a string, with a leading `-` where `i` is
/// negative.
pub fn signed_to_string(i: i128) -> (out: String)
    ensures
        out@ == signed_decimal(i as int),
{
    if i < 0 {
        proof {
            reveal_strlit("-");
        }
        let magnitude: u128 = ((-(i + 1)) as u128) + 1;
        let mut out = String::from_str("-");
        append_unsigned(&mut out, magnitude);
        assert(out@ =~= signed_decimal(i as int));
        out
    } else {
        unsigned_to_string(i as u128)
    }
}

} // verus!
