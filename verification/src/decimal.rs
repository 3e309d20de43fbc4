//! Decimal notation of integers, as Rust's `Display` writes them.

use vstd::prelude::*;
use vstd::string::StringExecFns;

verus! {

/// The character of a decimal digit.
pub open spec fn digit_char(d: nat) -> char
    recommends
        d < 10,
{
    ((48 + d) as u32) as char
}

/// The decimal digits of a natural number, most significant first, with no
/// leading zeros (zero is the single digit `0`).
pub open spec fn decimal_digits(n: nat) -> Seq<char>
    decreases n,
{
    if n < 10 {
        seq![digit_char(n)]
    } else {
        decimal_digits(n / 10).push(digit_char(n % 10))
    }
}

/// The decimal notation of an integer: a minus sign before the digits of
/// its magnitude when it is negative.
pub open spec fn decimal_int(n: int) -> Seq<char> {
    if n < 0 {
        seq!['-'] + decimal_digits((-n) as nat)
    } else {
        decimal_digits(n as nat)
    }
}

fn digit_str(d: u32) -> (s: &'static str)
    requires
        d < 10,
    ensures
        s@ == seq![digit_char(d as nat)],
{
    proof {
        reveal_strlit("0");
        reveal_strlit("1");
        reveal_strlit("2");
        reveal_strlit("3");
        reveal_strlit("4");
        reveal_strlit("5");
        reveal_strlit("6");
        reveal_strlit("7");
        reveal_strlit("8");
        reveal_strlit("9");
    }
    match d {
        0 => "0",
        1 => "1",
        2 => "2",
        3 => "3",
        4 => "4",
        5 => "5",
        6 => "6",
        7 => "7",
        8 => "8",
        _ => "9",
    }
}

/// Appends the decimal digits of `n` to `s`.
pub fn push_decimal_digits(s: &mut String, n: u32)
    ensures
        final(s)@ == old(s)@ + decimal_digits(n as nat),
    decreases n,
{
    if n >= 10 {
        push_decimal_digits(s, n / 10);
    }
    let d = digit_str(n % 10);
    s.append(d);
    assert(s@ =~= old(s)@ + decimal_digits(n as nat));
}

/// Appends the decimal notation of `n` to `s`.
pub fn push_decimal_i32(s: &mut String, n: i32)
    ensures
        final(s)@ == old(s)@ + decimal_int(n as int),
{
    if n < 0 {
        proof {
            reveal_strlit("-");
        }
        s.append("-");
        let magnitude: u32 = (0i64 - n as i64) as u32;
        push_decimal_digits(s, magnitude);
        assert(s@ =~= old(s)@ + decimal_int(n as int));
    } else {
        push_decimal_digits(s, n as u32);
    }
}

/// The number a string of decimal digits denotes, most significant first.
pub open spec fn digits_value(s: Seq<char>) -> int
    decreases s.len(),
{
    if s.len() == 0 {
        0
    } else {
        digits_value(s.drop_last()) * 10 + (s.last() as int - 48)
    }
}

/// The decimal digits of `n` are digits, read back as `n`, and have no
/// leading zero (only zero itself starts with `0`).
pub proof fn lemma_decimal_digits_denote(n: nat)
    ensures
        digits_value(decimal_digits(n)) == n,
        forall|i: int|
            0 <= i < decimal_digits(n).len() ==> 48 <= (#[trigger] decimal_digits(n)[i]) as int <= 57,
        decimal_digits(n).len() >= 1,
        n > 0 ==> decimal_digits(n)[0] != '0',
    decreases n,
{
    if n >= 10 {
        lemma_decimal_digits_denote(n / 10);
        let prefix = decimal_digits(n / 10);
        let s = prefix.push(digit_char(n % 10));
        assert(s.drop_last() =~= prefix);
        assert(s[0] == prefix[0]);
        assert(digit_char(n % 10) as int == 48 + n % 10);
        assert((n / 10) * 10 + n % 10 == n) by (nonlinear_arith);
        assert(decimal_digits(n) == s);
        assert(s.last() == digit_char(n % 10));
        assert(digits_value(s) == digits_value(prefix) * 10 + (s.last() as int - 48));
        assert(digits_value(prefix) == n / 10);
        assert(digits_value(s) == (n / 10) * 10 + n % 10);
    } else {
        let s = seq![digit_char(n)];
        assert(s.drop_last() =~= Seq::<char>::empty());
        assert(digit_char(n) as int == 48 + n);
        assert(digits_value(Seq::<char>::empty()) == 0);
        assert(decimal_digits(n) == s);
        assert(digits_value(s) == digits_value(s.drop_last()) * 10 + (s.last() as int - 48));
    }
}

/// Two numbers with the same decimal digits are equal: the notation loses
/// nothing.
pub proof fn lemma_decimal_digits_injective(m: nat, n: nat)
    requires
        decimal_digits(m) == decimal_digits(n),
    ensures
        m == n,
{
    lemma_decimal_digits_denote(m);
    lemma_decimal_digits_denote(n);
}

/// The decimal notation of an integer reads back as that integer: a
/// non-negative one is its digits alone; a negative one is a minus sign
/// followed by the digits of its magnitude.
pub proof fn lemma_decimal_int_denotes(n: int)
    ensures
        n >= 0 ==> digits_value(decimal_int(n)) == n && decimal_int(n)[0] != '-',
        n < 0 ==> decimal_int(n)[0] == '-' && digits_value(decimal_int(n).drop_first()) == -n,
{
    if n >= 0 {
        lemma_decimal_digits_denote(n as nat);
        assert(48 <= (decimal_digits(n as nat)[0]) as int <= 57);
    } else {
        lemma_decimal_digits_denote((-n) as nat);
        assert(decimal_int(n).drop_first() =~= decimal_digits((-n) as nat));
    }
}

} // verus!
