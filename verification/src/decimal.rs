//! Decimal notation of field positions.

use vstd::prelude::*;
use vstd::string::StringExecFns;

verus! {

/// The character that writes a single decimal digit.
pub open spec fn digit_char(digit: nat) -> char
    recommends
        digit < 10,
{
    if digit == 0 {
        '0'
    } else if digit == 1 {
        '1'
    } else if digit == 2 {
        '2'
    } else if digit == 3 {
        '3'
    } else if digit == 4 {
        '4'
    } else if digit == 5 {
        '5'
    } else if digit == 6 {
        '6'
    } else if digit == 7 {
        '7'
    } else if digit == 8 {
        '8'
    } else {
        '9'
    }
}

/// The decimal notation of `n`, most significant digit first, without leading
/// zeros; zero is written `0`.
pub open spec fn decimal_digits(n: nat) -> Seq<char>
    decreases n,
{
    if n < 10 {
        seq![digit_char(n)]
    } else {
        decimal_digits(n / 10).push(digit_char(n % 10))
    }
}

/// The number that a sequence of decimal digits writes.
pub open spec fn decimal_value(digits: Seq<char>) -> nat
    decreases digits.len(),
{
    if digits.len() == 0 {
        0
    } else {
        10 * decimal_value(digits.drop_last()) + (digits.last() as nat - '0' as nat) as nat
    }
}

/// Decimal notation has at least one digit, uses digits only, starts with a
/// zero only for zero itself, and reads back as the number it was made from.
pub proof fn lemma_decimal_digits(n: nat)
    ensures
        decimal_digits(n).len() >= 1,
        forall|i: int|
            0 <= i < decimal_digits(n).len() ==> '0' <= #[trigger] decimal_digits(n)[i] <= '9',
        decimal_digits(n)[0] == '0' <==> n == 0,
        decimal_value(decimal_digits(n)) == n,
    decreases n,
{
    if n < 10 {
        assert(decimal_digits(n).drop_last() =~= Seq::<char>::empty());
        assert(decimal_value(decimal_digits(n).drop_last()) == 0);
    } else {
        lemma_decimal_digits(n / 10);
        assert(decimal_digits(n).drop_last() =~= decimal_digits(n / 10));
    }
}

/// Two numbers with the same decimal notation are the same number.
pub proof fn lemma_decimal_digits_injective(m: nat, n: nat)
    requires
        decimal_digits(m) == decimal_digits(n),
    ensures
        m == n,
{
    lemma_decimal_digits(m);
    lemma_decimal_digits(n);
}

fn digit_str(digit: usize) -> (s: &'static str)
    requires
        digit < 10,
    ensures
        s@ == seq![digit_char(digit as nat)],
{
    proof {
        reveal_strlit("0");
        reveal_strlit("1");
        reveal_strlit("2");
        reveal_strlit("3");
        reveal_strlit("4");
        reveal_strlit("5");
        reveal_strlit("6");
        reveal_strlit("7");
        reveal_strlit("8");
        reveal_strlit("9");
    }
    let s = if digit == 0 {
        "0"
    } else if digit == 1 {
        "1"
    } else if digit == 2 {
        "2"
    } else if digit == 3 {
        "3"
    } else if digit == 4 {
        "4"
    } else if digit == 5 {
        "5"
    } else if digit == 6 {
        "6"
    } else if digit == 7 {
        "7"
    } else if digit == 8 {
        "8"
    } else {
        "9"
    };
    assert(s@ =~= seq![digit_char(digit as nat)]);
    s
}

/// Writes `n` in decimal notation.
pub fn decimal_string(n: usize) -> (text: String)
    ensures
        text@ == decimal_digits(n as nat),
    decreases n,
{
    if n < 10 {
        String::from_str(digit_str(n))
    } else {
        let mut text = decimal_string(n / 10);
        text.append(digit_str(n % 10));
        assert(text@ =~= decimal_digits(n as nat));
        text
    }
}

} // verus!
