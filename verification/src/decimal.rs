//! Decimal numbers in text: read from a command line, written into a path.

use vstd::prelude::*;
use vstd::string::*;

verus! {

/// Whether `c` is one of the ten decimal digits.
pub open spec fn is_digit(c: char) -> bool {
    48 <= c as u32 <= 57
}

/// The number that a digit stands for; 0 for any other character.
pub open spec fn digit_value(c: char) -> nat {
    if is_digit(c) {
        (c as u32 - 48) as nat
    } else {
        0
    }
}

/// The digit that stands for a number below ten.
pub open spec fn digit_char(d: nat) -> char
    recommends
        d < 10,
{
    (48 + d) as u32 as char
}

/// Whether a text is made of decimal digits alone.
pub open spec fn all_digits(text: Seq<char>) -> bool {
    forall|i: int| 0 <= i < text.len() ==> is_digit(#[trigger] text[i])
}

/// The number that a run of digits denotes, the first digit weighing most.
pub open spec fn digits_value(text: Seq<char>) -> nat
    decreases text.len(),
{
    if text.len() == 0 {
        0
    } else {
        digits_value(text.drop_last()) * 10 + digit_value(text.last())
    }
}

/// A text without the plus sign that may lead it.
pub open spec fn without_sign(text: Seq<char>) -> Seq<char> {
    if text.len() > 0 && text[0] == '+' {
        text.drop_first()
    } else {
        text
    }
}

/// The number of seconds that a text denotes: an optional plus sign and then
/// one digit or more, which together denote a number within `u64`. Any other
/// text denotes none.
pub open spec fn parse_decimal_spec(text: Seq<char>) -> Option<u64> {
    let digits = without_sign(text);
    if digits.len() > 0 && all_digits(digits) && digits_value(digits) <= u64::MAX {
        Some(digits_value(digits) as u64)
    } else {
        None
    }
}

/// The decimal digits of a number, without leading zeros.
pub open spec fn decimal_digits(n: nat) -> Seq<char>
    decreases n,
{
    if n < 10 {
        seq![digit_char(n)]
    } else {
        decimal_digits(n / 10).push(digit_char(n % 10))
    }
}

/// A run of digits denotes at least what any of its beginnings denotes.
pub proof fn lemma_digits_value_grows(text: Seq<char>, len: int)
    requires
        0 <= len <= text.len(),
    ensures
        digits_value(text.take(len)) <= digits_value(text),
    decreases text.len(),
{
    if len == text.len() {
        assert(text.take(len) =~= text);
    } else {
        lemma_digits_value_grows(text.drop_last(), len);
        assert(text.drop_last().take(len) =~= text.take(len));
    }
}

/// Written out and read back, a number is itself.
pub proof fn lemma_decimal_round_trip(n: nat)
    ensures
        decimal_digits(n).len() > 0,
        all_digits(decimal_digits(n)),
        decimal_digits(n)[0] != '+',
        digits_value(decimal_digits(n)) == n,
        n <= u64::MAX ==> parse_decimal_spec(decimal_digits(n)) == Some(n as u64),
    decreases n,
{
    if n < 10 {
        assert(decimal_digits(n).drop_last() =~= Seq::<char>::empty());
        assert(digits_value(decimal_digits(n)) == digits_value(Seq::<char>::empty()) * 10
            + digit_value(digit_char(n)));
    } else {
        lemma_decimal_round_trip(n / 10);
        assert(decimal_digits(n).drop_last() =~= decimal_digits(n / 10));
    }
}

/// Reads a number of seconds from a text.
pub fn parse_decimal(text: &str) -> (value: Option<u64>)
    ensures
        value == parse_decimal_spec(text@),
{
    let len: usize = text.unicode_len();
    let mut k: usize = 0;
    if len > 0 && text.get_char(0) == '+' {
        k = 1;
    }
    let first: usize = k;
    let ghost digits = without_sign(text@);
    assert(digits =~= text@.skip(first as int));
    if k == len {
        return None;
    }
    let mut value: u64 = 0;
    while k < len
        invariant
            first <= k <= len,
            len == text@.len(),
            digits == without_sign(text@),
            digits == text@.skip(first as int),
            all_digits(digits.take(k - first)),
            value == digits_value(digits.take(k - first)),
        decreases len - k,
    {
        let c: char = text.get_char(k);
        let code: u32 = c as u32;
        assert(digits[k - first] == c);
        if code < 48 || code > 57 {
            assert(!is_digit(digits[k - first]));
            return None;
        }
        let digit: u64 = (code - 48) as u64;
        let ghost longer = digits.take(k - first + 1);
        assert(longer.drop_last() =~= digits.take(k - first));
        assert(longer.last() == c);
        assert(digits_value(longer) == value * 10 + digit);
        proof {
            lemma_digits_value_grows(digits, k - first + 1);
        }
        let tens: u64 = match value.checked_mul(10) {
            Some(tens) => tens,
            None => {
                return None;
            },
        };
        value = match tens.checked_add(digit) {
            Some(sum) => sum,
            None => {
                return None;
            },
        };
        k += 1;
    }
    assert(digits.take(k - first) =~= digits);
    Some(value)
}

/// The text of one digit.
fn digit_text(d: u64) -> (text: &'static str)
    requires
        d < 10,
    ensures
        text@ == seq![digit_char(d as nat)],
{
    proof {
        reveal_strlit("0");
        reveal_strlit("1");
        reveal_strlit("2");
        reveal_strlit("3");
        reveal_strlit("4");
        reveal_strlit("5");
        reveal_strlit("6");
        reveal_strlit("7");
        reveal_strlit("8");
        reveal_strlit("9");
    }
    let text: &'static str = if d == 0 {
        "0"
    } else if d == 1 {
        "1"
    } else if d == 2 {
        "2"
    } else if d == 3 {
        "3"
    } else if d == 4 {
        "4"
    } else if d == 5 {
        "5"
    } else if d == 6 {
        "6"
    } else if d == 7 {
        "7"
    } else if d == 8 {
        "8"
    } else {
        "9"
    };
    assert(text@ =~= seq![digit_char(d as nat)]);
    text
}

/// Writes a number in decimal digits at the end of a text.
pub fn append_decimal(text: &mut String, n: u64)
    ensures
        final(text)@ == old(text)@ + decimal_digits(n as nat),
    decreases n,
{
    if n >= 10 {
        append_decimal(text, n / 10);
    }
    text.append(digit_text(n % 10));
    assert(text@ =~= old(text)@ + decimal_digits(n as nat));
}

} // verus!
