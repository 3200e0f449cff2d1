//! Decimal numbers: reading one from text and writing one as text.

use vstd::prelude::*;
use vstd::string::StringExecFns;

verus! {

pub open spec fn is_digit(c: char) -> bool {
    '0' <= c && c <= '9'
}

/// The value of a decimal digit.
pub open spec fn digit_value(c: char) -> nat
    recommends
        is_digit(c),
{
    (c as nat - '0' as nat) as nat
}

/// The digit that stands for `d`.
pub open spec fn digit_char(d: nat) -> char
    recommends
        d < 10,
{
    if d == 0 {
        '0'
    } else if d == 1 {
        '1'
    } else if d == 2 {
        '2'
    } else if d == 3 {
        '3'
    } else if d == 4 {
        '4'
    } else if d == 5 {
        '5'
    } else if d == 6 {
        '6'
    } else if d == 7 {
        '7'
    } else if d == 8 {
        '8'
    } else {
        '9'
    }
}

pub open spec fn all_digits(text: Seq<char>) -> bool {
    forall|i: int| 0 <= i < text.len() ==> is_digit(#[trigger] text[i])
}

/// The number that a row of digits stands for, however long the row.
pub open spec fn decimal_value(digits: Seq<char>) -> nat
    decreases digits.len(),
{
    if digits.len() == 0 {
        0
    } else {
        decimal_value(digits.drop_last()) * 10 + digit_value(digits.last())
    }
}

/// `text` without the `+` that may stand in front of a number.
pub open spec fn unsigned_part(text: Seq<char>) -> Seq<char> {
    if text.len() > 0 && text[0] == '+' {
        text.drop_first()
    } else {
        text
    }
}

/// The number that `text` stands for: at least one decimal digit, a `+` in
/// front allowed, nothing else before, between or after; the value must fit in
/// 16 bits. Zeros in front are accepted.
pub open spec fn number_of(text: Seq<char>) -> Option<u16> {
    let digits = unsigned_part(text);
    if digits.len() > 0 && all_digits(digits) && decimal_value(digits) <= u16::MAX {
        Some(decimal_value(digits) as u16)
    } else {
        None
    }
}

/// The digits of `n`, without zeros in front.
pub open spec fn decimal(n: nat) -> Seq<char>
    decreases n,
{
    if n < 10 {
        seq![digit_char(n)]
    } else {
        decimal(n / 10).push(digit_char(n % 10))
    }
}

/// A row of digits as [`decimal`] writes one: not empty, and no zero in front
/// of another digit.
pub open spec fn is_canonical(digits: Seq<char>) -> bool {
    &&& digits.len() > 0
    &&& all_digits(digits)
    &&& digits.len() > 1 ==> digits[0] != '0'
}

/// A digit and its value belong together.
pub proof fn lemma_digit_char_value(d: nat)
    requires
        d < 10,
    ensures
        is_digit(digit_char(d)),
        digit_value(digit_char(d)) == d,
{
}

/// Every digit is the digit of its value.
pub proof fn lemma_digit_value_char(c: char)
    requires
        is_digit(c),
    ensures
        digit_value(c) < 10,
        digit_char(digit_value(c)) == c,
{
}

/// The value of the first digits of a row is at most the value of the row.
pub proof fn lemma_decimal_value_prefix(digits: Seq<char>, k: int)
    requires
        0 <= k <= digits.len(),
    ensures
        decimal_value(digits.take(k)) <= decimal_value(digits),
    decreases digits.len(),
{
    if k == digits.len() {
        assert(digits.take(k) == digits);
    } else {
        lemma_decimal_value_prefix(digits.drop_last(), k);
        assert(digits.drop_last().take(k) == digits.take(k));
    }
}

/// A canonical row of more than one digit is worth at least ten, one of a
/// single digit less than ten; the only one worth nothing is `0`.
pub proof fn lemma_canonical_value(digits: Seq<char>)
    requires
        is_canonical(digits),
    ensures
        digits.len() == 1 <==> decimal_value(digits) < 10,
        decimal_value(digits) == 0 ==> digits == seq!['0'],
    decreases digits.len(),
{
    if digits.len() == 1 {
        assert(decimal_value(digits.drop_last()) == 0);
        lemma_digit_value_char(digits[0]);
    } else {
        lemma_canonical_value(digits.drop_last());
    }
}

/// What [`decimal`] writes is canonical and is worth the number written.
pub proof fn lemma_decimal_value_of_decimal(n: nat)
    ensures
        is_canonical(decimal(n)),
        decimal_value(decimal(n)) == n,
    decreases n,
{
    if n < 10 {
        lemma_digit_char_value(n);
        assert(decimal_value(decimal(n).drop_last()) == 0);
    } else {
        let shorter = decimal(n / 10);
        lemma_decimal_value_of_decimal(n / 10);
        lemma_digit_char_value(n % 10);
        lemma_canonical_value(shorter);
        assert(shorter.push(digit_char(n % 10)).drop_last() == shorter);
    }
}

/// A canonical row of digits is what [`decimal`] writes for its value.
pub proof fn lemma_decimal_of_decimal_value(digits: Seq<char>)
    requires
        is_canonical(digits),
    ensures
        decimal(decimal_value(digits)) == digits,
    decreases digits.len(),
{
    lemma_canonical_value(digits);
    lemma_digit_value_char(digits.last());
    if digits.len() > 1 {
        lemma_decimal_of_decimal_value(digits.drop_last());
    }
}

/// Reads the number that `text` stands for, as [`number_of`] says.
pub fn parse_number(text: &Vec<char>) -> (number: Option<u16>)
    ensures
        number == number_of(text@),
{
    let n = text.len();
    let start: usize = if n > 0 && text[0] == '+' {
        1
    } else {
        0
    };
    let ghost digits = unsigned_part(text@);
    if start == n {
        return None;
    }
    let mut value: u32 = 0;
    let mut i: usize = start;
    while i < n
        invariant
            start <= i <= n,
            n == text.len(),
            digits == unsigned_part(text@),
            digits == text@.subrange(start as int, n as int),
            all_digits(digits.take(i - start)),
            value == decimal_value(digits.take(i - start)),
            value <= u16::MAX,
        decreases n - i,
    {
        let c = text[i];
        assert(digits[i - start] == c);
        if !('0' <= c && c <= '9') {
            return None;
        }
        let digit: u32 = c as u32 - '0' as u32;
        proof {
            let longer = digits.take(i - start + 1);
            assert(longer.drop_last() == digits.take(i - start));
            assert forall|j: int| 0 <= j < longer.len() implies is_digit(#[trigger] longer[j]) by {
                assert(j < longer.len() - 1 ==> longer[j] == longer.drop_last()[j]);
            }
        }
        value = value * 10 + digit;
        if value > 65535 {
            proof {
                lemma_decimal_value_prefix(digits, i - start + 1);
            }
            return None;
        }
        i += 1;
    }
    assert(digits.take(digits.len() as int) == digits);
    Some(value as u16)
}

/// A digit as text.
fn digit_text(d: u16) -> (text: &'static str)
    requires
        d < 10,
    ensures
        text@ == seq![digit_char(d as nat)],
{
    proof {
        reveal_strlit("0");
        reveal_strlit("1");
        reveal_strlit("2");
        reveal_strlit("3");
        reveal_strlit("4");
        reveal_strlit("5");
        reveal_strlit("6");
        reveal_strlit("7");
        reveal_strlit("8");
        reveal_strlit("9");
    }
    let text = if d == 0 {
        "0"
    } else if d == 1 {
        "1"
    } else if d == 2 {
        "2"
    } else if d == 3 {
        "3"
    } else if d == 4 {
        "4"
    } else if d == 5 {
        "5"
    } else if d == 6 {
        "6"
    } else if d == 7 {
        "7"
    } else if d == 8 {
        "8"
    } else {
        "9"
    };
    text
}

/// Writes `n` in decimal digits, as [`decimal`] says.
pub fn decimal_text(n: u16) -> (text: String)
    ensures
        text@ == decimal(n as nat),
    decreases n,
{
    if n < 10 {
        String::from_str(digit_text(n))
    } else {
        let mut text = decimal_text(n / 10);
        text.append(digit_text(n % 10));
        text
    }
}

} // verus!
