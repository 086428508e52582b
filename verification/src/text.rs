//! Decimal rendering of integers and assembly of message strings.

use vstd::prelude::*;

verus! {

/// The character of a decimal digit.
pub open spec fn digit_char(d: int) -> char {
    if d == 0 {
        '0'
    } else if d == 1 {
        '1'
    } else if d == 2 {
        '2'
    } else if d == 3 {
        '3'
    } else if d == 4 {
        '4'
    } else if d == 5 {
        '5'
    } else if d == 6 {
        '6'
    } else if d == 7 {
        '7'
    } else if d == 8 {
        '8'
    } else {
        '9'
    }
}

/// The decimal digits of a natural number, most significant first, without
/// leading zeros (zero itself is the single digit `0`).
pub open spec fn decimal_digits(n: nat) -> Seq<char>
    decreases n,
{
    if n < 10 {
        seq![digit_char(n as int)]
    } else {
        decimal_digits(n / 10).push(digit_char((n % 10) as int))
    }
}

/// The decimal text of an integer, as `{}` formats it: a leading `-` for
/// negative values, then the digits of the magnitude.
pub open spec fn decimal(x: int) -> Seq<char> {
    if x < 0 {
        seq!['-'] + decimal_digits((-x) as nat)
    } else {
        decimal_digits(x as nat)
    }
}

fn digit_str(d: u64) -> (s: &'static str)
    requires
        d < 10,
    ensures
        s@ == seq![digit_char(d as int)],
{
    if d == 0 {
        proof { reveal_strlit("0"); }
        "0"
    } else if d == 1 {
        proof { reveal_strlit("1"); }
        "1"
    } else if d == 2 {
        proof { reveal_strlit("2"); }
        "2"
    } else if d == 3 {
        proof { reveal_strlit("3"); }
        "3"
    } else if d == 4 {
        proof { reveal_strlit("4"); }
        "4"
    } else if d == 5 {
        proof { reveal_strlit("5"); }
        "5"
    } else if d == 6 {
        proof { reveal_strlit("6"); }
        "6"
    } else if d == 7 {
        proof { reveal_strlit("7"); }
        "7"
    } else if d == 8 {
        proof { reveal_strlit("8"); }
        "8"
    } else {
        proof { reveal_strlit("9"); }
        "9"
    }
}

fn format_nat(n: u64) -> (s: String)
    ensures
        s@ == decimal_digits(n as nat),
    decreases n,
{
    if n < 10 {
        String::from_str(digit_str(n))
    } else {
        let mut s = format_nat(n / 10);
        s.append(digit_str(n % 10));
        s
    }
}

/// Renders a signed 32-bit value in decimal.
pub fn format_i32(x: i32) -> (s: String)
    ensures
        s@ == decimal(x as int),
{
    if x < 0 {
        let wide: i64 = x as i64;
        let magnitude: u64 = (-wide) as u64;
        let mut s = String::from_str("-");
        proof { reveal_strlit("-"); }
        let digits = format_nat(magnitude);
        s.append(digits.as_str());
        s
    } else {
        format_nat(x as u64)
    }
}

/// Renders an unsigned 32-bit value (such as a Windows error code) in decimal.
pub fn format_u32(x: u32) -> (s: String)
    ensures
        s@ == decimal(x as int),
{
    format_nat(x as u64)
}

/// Concatenates three pieces of text.
pub fn concat3(a: &str, b: &str, c: &str) -> (s: String)
    ensures
        s@ == a@ + b@ + c@,
{
    let mut s = String::from_str(a);
    s.append(b);
    s.append(c);
    s
}

/// `prefix`, the decimal text of `code`, then `suffix`.
pub fn with_i32(prefix: &str, code: i32, suffix: &str) -> (s: String)
    ensures
        s@ == prefix@ + decimal(code as int) + suffix@,
{
    let digits = format_i32(code);
    concat3(prefix, digits.as_str(), suffix)
}

/// `prefix`, the decimal text of `code`, then `suffix`.
pub fn with_u32(prefix: &str, code: u32, suffix: &str) -> (s: String)
    ensures
        s@ == prefix@ + decimal(code as int) + suffix@,
{
    let digits = format_u32(code);
    concat3(prefix, digits.as_str(), suffix)
}

/// The number that a string of decimal digits spells, reading each
/// character by its code (`'0'` is 48).
pub open spec fn digits_value(digits: Seq<char>) -> int
    decreases digits.len(),
{
    if digits.len() == 0 {
        0
    } else {
        digits_value(digits.drop_last()) * 10 + (digits.last() as int - 48)
    }
}

/// The decimal digits of `n` are characters `'0'..='9'`, spell `n` back, and
/// begin with `'0'` only for zero itself.
pub proof fn lemma_decimal_digits_spell_the_number(n: nat)
    ensures
        forall|k: int|
            0 <= k < decimal_digits(n).len() ==> 48 <= #[trigger] (decimal_digits(n)[k] as int)
                <= 57,
        digits_value(decimal_digits(n)) == n,
        decimal_digits(n).len() >= 1,
        decimal_digits(n)[0] == '0' <==> n == 0,
    decreases n,
{
    if n < 10 {
        let s = decimal_digits(n);
        assert(s.drop_last() =~= Seq::<char>::empty());
        assert(s.last() as int == n + 48);
        assert(digits_value(s.drop_last()) == 0);
        assert(digits_value(s) == n);
    } else {
        lemma_decimal_digits_spell_the_number(n / 10);
        let s = decimal_digits(n);
        let prefix = decimal_digits(n / 10);
        assert(s.drop_last() =~= prefix);
        assert(s.last() as int == (n % 10) + 48);
        assert(s[0] == prefix[0]);
        assert(n == (n / 10) * 10 + n % 10);
        assert(digits_value(s) == digits_value(prefix) * 10 + (n % 10));
    }
}

/// Negative numbers, and only they, are written with a leading `-`, followed
/// by the digits of the magnitude.
pub proof fn lemma_decimal_sign(x: int)
    ensures
        decimal(x)[0] == '-' <==> x < 0,
        x < 0 ==> decimal(x).drop_first() == decimal_digits((-x) as nat),
        x >= 0 ==> decimal(x) == decimal_digits(x as nat),
{
    if x < 0 {
        assert(decimal(x).drop_first() =~= decimal_digits((-x) as nat));
    } else {
        lemma_decimal_digits_spell_the_number(x as nat);
        assert(48 <= decimal_digits(x as nat)[0] as int <= 57);
    }
}

} // verus!
