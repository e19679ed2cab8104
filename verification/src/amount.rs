//! Amounts of tokens written in decimal.

use vstd::prelude::*;

verus! {

/// The characters of a text.
pub(crate) fn characters(text: &str) -> (chars: Vec<char>)
    ensures
        chars@ == text@,
{
    let mut chars: Vec<char> = Vec::new();
    for c in iter: text.chars()
        invariant
            chars@ == iter.seq().take(iter.index() as int),
            iter.seq() == text@,
    {
        chars.push(c);
    }
    chars
}

/// Whether a character is a decimal digit.
pub open spec fn is_digit(c: char) -> bool {
    '0' <= c <= '9'
}

/// Whether every character of a text is a decimal digit.
pub open spec fn all_digits(text: Seq<char>) -> bool {
    forall|i: int| 0 <= i < text.len() ==> is_digit(#[trigger] text[i])
}

/// The number that a sequence of decimal digits stands for.
pub open spec fn number(digits: Seq<char>) -> nat
    decreases digits.len(),
{
    if digits.len() == 0 {
        0
    } else {
        number(digits.drop_last()) * 10 + (digits.last() as int - '0' as int) as nat
    }
}

/// A text without the plus sign that it may begin with.
pub open spec fn without_plus(text: Seq<char>) -> Seq<char> {
    if text.len() > 0 && text[0] == '+' {
        text.skip(1)
    } else {
        text
    }
}

/// The amount that a text stands for: an optional plus sign and one or more
/// decimal digits, of a number that fits 64 bits.
pub open spec fn amount_of(text: Seq<char>) -> Option<u64> {
    let digits = without_plus(text);
    if digits.len() > 0 && all_digits(digits) && number(digits) <= u64::MAX {
        Some(number(digits) as u64)
    } else {
        None
    }
}

/// More digits do not make a number smaller.
proof fn number_grows(digits: Seq<char>, i: int)
    requires
        0 <= i <= digits.len(),
    ensures
        number(digits.take(i)) <= number(digits),
    decreases digits.len(),
{
    if i == digits.len() {
        assert(digits.take(i) == digits);
    } else {
        number_grows(digits.drop_last(), i);
        assert(digits.drop_last().take(i) == digits.take(i));
    }
}

/// Reads an amount.
pub fn parse_amount(text: &str) -> (amount: Option<u64>)
    ensures
        amount == amount_of(text@),
{
    let chars = characters(text);
    let start: usize = if chars.len() > 0 && chars[0] == '+' {
        1
    } else {
        0
    };
    let ghost digits = without_plus(text@);
    assert(digits == text@.skip(start as int));
    if start == chars.len() {
        return None;
    }
    let mut amount: u64 = 0;
    let mut i: usize = start;
    while i < chars.len()
        invariant
            start <= i <= chars.len(),
            chars@ == text@,
            digits == without_plus(text@),
            digits == text@.skip(start as int),
            amount == number(digits.take(i - start)),
            forall|j: int| 0 <= j < i - start ==> is_digit(#[trigger] digits[j]),
        decreases chars.len() - i,
    {
        let c = chars[i];
        assert(c == digits[i - start]);
        if c < '0' || c > '9' {
            return None;
        }
        proof {
            assert(digits.take(i - start + 1).drop_last() == digits.take(i - start));
            number_grows(digits, i - start + 1);
        }
        let digit: u64 = (c as u32 - '0' as u32) as u64;
        if amount > (u64::MAX - digit) / 10 {
            return None;
        }
        amount = amount * 10 + digit;
        i = i + 1;
    }
    assert(digits.take(chars.len() - start) == digits);
    Some(amount)
}

/// The character that writes a number from zero to nine.
pub open spec fn digit(value: nat) -> char {
    seq!['0', '1', '2', '3', '4', '5', '6', '7', '8', '9'][value as int]
}

/// A number written in decimal, without needless zeros.
pub open spec fn decimal(n: nat) -> Seq<char>
    decreases n,
{
    if n < 10 {
        seq![digit(n)]
    } else {
        decimal(n / 10).push(digit(n % 10))
    }
}

/// A number written in decimal is made of digits, at least one, that stand for it.
pub proof fn decimal_is_digits(n: nat)
    ensures
        decimal(n).len() > 0,
        all_digits(decimal(n)),
        number(decimal(n)) == n,
    decreases n,
{
    let text = decimal(n);
    assert(digit(n % 10) as int == '0' as int + n % 10);
    if n < 10 {
        reveal_with_fuel(number, 2);
        assert(text.drop_last() == Seq::<char>::empty());
    } else {
        decimal_is_digits(n / 10);
        assert(text.drop_last() == decimal(n / 10));
    }
}

/// Zeros before a number's digits do not count.
proof fn zeros_do_not_count(digits: Seq<char>)
    ensures
        number(seq!['0'] + digits) == number(digits),
    decreases digits.len(),
{
    let longer = seq!['0'] + digits;
    if digits.len() == 0 {
        assert(longer.drop_last() == digits);
    } else {
        zeros_do_not_count(digits.drop_last());
        assert(longer.drop_last() == seq!['0'] + digits.drop_last());
    }
}

/// A number written in decimal reads as that number where it fits 64 bits, with
/// or without a plus sign, and as no amount where it does not fit.
pub proof fn decimal_gives_the_number_back(n: nat)
    ensures
        n <= u64::MAX ==> amount_of(decimal(n)) == Some(n as u64),
        n <= u64::MAX ==> amount_of(seq!['+'] + decimal(n)) == Some(n as u64),
        n > u64::MAX ==> amount_of(decimal(n)) is None,
        n > u64::MAX ==> amount_of(seq!['+'] + decimal(n)) is None,
{
    decimal_is_digits(n);
    assert(is_digit(decimal(n)[0]));
    assert((seq!['+'] + decimal(n)).skip(1) == decimal(n));
}

/// An amount may be written with any number of zeros before its digits.
pub proof fn leading_zeros_are_allowed(text: Seq<char>)
    requires
        text.len() > 0,
        text[0] != '+',
    ensures
        amount_of(seq!['0'] + text) == amount_of(text),
        amount_of(seq!['+', '0'] + text) == amount_of(text),
{
    let longer = seq!['0'] + text;
    zeros_do_not_count(text);
    assert((seq!['+', '0'] + text).skip(1) == longer);
    if all_digits(text) {
        assert forall|i: int| 0 <= i < longer.len() implies is_digit(#[trigger] longer[i]) by {
            if i > 0 {
                assert(longer[i] == text[i - 1]);
            }
        }
    }
    if all_digits(longer) {
        assert forall|i: int| 0 <= i < text.len() implies is_digit(#[trigger] text[i]) by {
            assert(longer[i + 1] == text[i]);
        }
    }
}

/// The ten digits read as zero to nine, and no other character is an amount.
pub proof fn digits_stand_for_zero_to_nine(c: char)
    ensures
        amount_of(seq![c]) == (match c {
            '0' => Some(0u64),
            '1' => Some(1u64),
            '2' => Some(2u64),
            '3' => Some(3u64),
            '4' => Some(4u64),
            '5' => Some(5u64),
            '6' => Some(6u64),
            '7' => Some(7u64),
            '8' => Some(8u64),
            '9' => Some(9u64),
            _ => None,
        }),
{
    let text = seq![c];
    reveal_with_fuel(number, 2);
    assert(text.drop_last() == Seq::<char>::empty());
    assert(text.skip(1) == Seq::<char>::empty());
    if is_digit(c) {
        assert(all_digits(text));
    } else {
        assert(!is_digit(text[0]));
    }
}

/// A further digit makes an amount ten times as large and adds what the digit
/// reads as. What is no digit, or makes the amount too large for 64 bits, leaves
/// no amount, and neither does anything that follows what is no amount.
pub proof fn another_digit_counts_the_rest_tenfold(text: Seq<char>, c: char)
    requires
        text.len() > 0,
        text != seq!['+'],
    ensures
        amount_of(text.push(c)) == (match (amount_of(text), amount_of(seq![c])) {
            (Some(n), Some(d)) => if 10 * n + d <= u64::MAX {
                Some((10 * n + d) as u64)
            } else {
                None
            },
            _ => None,
        }),
{
    digits_stand_for_zero_to_nine(c);
    let digits = without_plus(text);
    assert(digits.len() > 0) by {
        if text.len() == 1 && text[0] == '+' {
            assert(text =~= seq!['+']);
        }
    }
    let longer = without_plus(text.push(c));
    assert(longer == digits.push(c));
    assert(longer.drop_last() == digits);
    assert(longer.last() == c);
    if is_digit(c) && all_digits(digits) {
        assert(all_digits(longer));
    }
    if all_digits(longer) {
        assert(is_digit(longer[longer.len() - 1]));
        assert forall|i: int| 0 <= i < digits.len() implies is_digit(#[trigger] digits[i]) by {
            assert(longer[i] == digits[i]);
        }
    }
}

/// A plus sign before an amount changes nothing; a second one, or one alone,
/// leaves no amount, and neither is nothing at all an amount.
pub proof fn one_plus_sign_is_allowed(text: Seq<char>)
    ensures
        text.len() > 0 && text[0] == '+' ==> amount_of(seq!['+'] + text) is None,
        text.len() > 0 && text[0] != '+' ==> amount_of(seq!['+'] + text) == amount_of(text),
        amount_of(seq!['+']) is None,
        amount_of(Seq::empty()) is None,
{
    assert((seq!['+'] + text).skip(1) == text);
    assert(seq!['+'].skip(1) == Seq::<char>::empty());
    if text.len() > 0 && text[0] == '+' {
        assert(!is_digit(text[0]));
    }
}

/// What [`parse_amount`] gives for a number written in decimal is the number, and
/// nothing where the number does not fit 64 bits.
pub proof fn parse_amount_reads_decimals(text: &str, n: nat, amount: Option<u64>)
    requires
        text@ == decimal(n) || text@ == seq!['+'] + decimal(n),
        call_ensures(parse_amount, (text,), amount),
    ensures
        amount is Some <==> n <= u64::MAX,
        amount matches Some(read) ==> read == n,
{
    decimal_gives_the_number_back(n);
}

} // verus!
