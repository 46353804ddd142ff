use vstd::prelude::*;
use vstd::string::{StrSliceExecFns, StringExecFns};

verus! {

/// Whether `c` is one of the digits `0` to `9`.
pub open spec fn is_digit(c: char) -> bool {
    '0' <= c && c <= '9'
}

/// The number that a text of digits writes in base ten.
pub open spec fn digits_value(digits: Seq<char>) -> int
    decreases digits.len(),
{
    if digits.len() == 0 {
        0
    } else {
        digits_value(digits.drop_last()) * 10 + (digits.last() as int - '0' as int)
    }
}

/// Whether `text` is one digit or more, and nothing else.
pub open spec fn is_digits(text: Seq<char>) -> bool {
    text.len() > 0 && forall|i: int| 0 <= i < text.len() ==> is_digit(#[trigger] text[i])
}

/// The integer that `text` writes: digits, after a `+` or, where `signed`, a
/// `-` if there is one. `None` where `text` has any other form.
pub open spec fn decimal_value(text: Seq<char>, signed: bool) -> Option<int> {
    if text.len() > 0 && (text[0] == '+' || (signed && text[0] == '-')) {
        let digits = text.subrange(1, text.len() as int);
        if !is_digits(digits) {
            None
        } else if text[0] == '-' {
            Some(-digits_value(digits))
        } else {
            Some(digits_value(digits))
        }
    } else if is_digits(text) {
        Some(digits_value(text))
    } else {
        None
    }
}

/// The digit that stands for `d`, for `d` from 0 to 9.
pub open spec fn digit_char(d: int) -> char {
    seq!['0', '1', '2', '3', '4', '5', '6', '7', '8', '9'][d]
}

/// A natural number written in base ten, without leading zeros.
pub open spec fn natural_text(n: nat) -> Seq<char>
    decreases n,
{
    if n < 10 {
        seq![digit_char(n as int)]
    } else {
        natural_text(n / 10).push(digit_char((n % 10) as int))
    }
}

/// An integer written in base ten, with `-` before a negative one.
pub open spec fn decimal_text(n: int) -> Seq<char> {
    if n < 0 {
        seq!['-'] + natural_text((-n) as nat)
    } else {
        natural_text(n as nat)
    }
}

/// The truth value that `text` writes: `true` or `false`, and nothing else.
pub open spec fn bool_value(text: Seq<char>) -> Option<bool> {
    if text == seq!['t', 'r', 'u', 'e'] {
        Some(true)
    } else if text == seq!['f', 'a', 'l', 's', 'e'] {
        Some(false)
    } else {
        None
    }
}

/// The integer that `text` writes, where it lies between `low` and `high`.
pub open spec fn bounded_decimal(text: Seq<char>, signed: bool, low: int, high: int) -> Option<
    int,
> {
    match decimal_value(text, signed) {
        Some(n) => if low <= n <= high {
            Some(n)
        } else {
            None
        },
        None => None,
    }
}

/// The `i64` that `text` writes.
pub open spec fn integer_value(text: Seq<char>) -> Option<int> {
    bounded_decimal(text, true, i64::MIN as int, i64::MAX as int)
}

/// The `usize` that `text` writes.
pub open spec fn length_value(text: Seq<char>) -> Option<int> {
    bounded_decimal(text, false, 0, usize::MAX as int)
}

/// Among digits, a longer text writes no smaller a number than its start.
pub proof fn lemma_digits_value_grows(digits: Seq<char>, k: int)
    requires
        0 <= k <= digits.len(),
        forall|i: int| 0 <= i < digits.len() ==> is_digit(#[trigger] digits[i]),
    ensures
        0 <= digits_value(digits.take(k)) <= digits_value(digits),
    decreases digits.len() - k,
{
    if k == digits.len() {
        assert(digits.take(k) =~= digits);
        lemma_digits_value_not_negative(digits);
    } else {
        let longer = digits.take(k + 1);
        assert(longer.drop_last() =~= digits.take(k));
        assert(is_digit(digits[k]));
        lemma_digits_value_not_negative(digits.take(k));
        lemma_digits_value_grows(digits, k + 1);
    }
}

/// Digits write a number that is not negative.
pub proof fn lemma_digits_value_not_negative(digits: Seq<char>)
    requires
        forall|i: int| 0 <= i < digits.len() ==> is_digit(#[trigger] digits[i]),
    ensures
        0 <= digits_value(digits),
    decreases digits.len(),
{
    if digits.len() > 0 {
        assert(is_digit(digits[digits.len() - 1]));
        lemma_digits_value_not_negative(digits.drop_last());
    }
}

/// A text with a character outside ASCII writes no integer.
pub proof fn lemma_decimal_is_ascii(text: Seq<char>, signed: bool)
    ensures
        decimal_value(text, signed) is Some ==> vstd::utf8::is_ascii_chars(text),
{
    if decimal_value(text, signed) is Some {
        if text.len() > 0 && (text[0] == '+' || (signed && text[0] == '-')) {
            let digits = text.subrange(1, text.len() as int);
            assert forall|i: int| 0 <= i < text.len() implies '\0' <= #[trigger] text[i]
                <= '\u{7f}' by {
                if i > 0 {
                    assert(is_digit(digits[i - 1]));
                }
            }
        } else {
            assert forall|i: int| 0 <= i < text.len() implies '\0' <= #[trigger] text[i]
                <= '\u{7f}' by {
                assert(is_digit(text[i]));
            }
        }
    }
}

/// Reads `text` as an integer between `low` and `high`, written in base ten
/// after an optional `+` or, where `signed`, an optional `-`.
#[verifier::loop_isolation(false)]
fn parse_decimal(text: &str, signed: bool, low: i128, high: i128) -> (r: Option<i128>)
    requires
        -0x1_0000_0000_0000_0000 <= low <= 0,
        0 <= high <= 0x1_0000_0000_0000_0000,
    ensures
        match r {
            Some(v) => bounded_decimal(text@, signed, low as int, high as int) == Some(v as int),
            None => bounded_decimal(text@, signed, low as int, high as int) is None,
        },
{
    proof {
        lemma_decimal_is_ascii(text@, signed);
    }
    if !text.is_ascii() {
        return None;
    }
    let n: usize = text.unicode_len();
    if n == 0 {
        return None;
    }
    let first: u8 = text.get_ascii(0);
    let negative: bool = signed && first == 45;
    let start: usize = if first == 43 || negative {
        1
    } else {
        0
    };
    if start == n {
        return None;
    }
    let limit: i128 = if negative {
        -low
    } else {
        high
    };
    let ghost digits = text@.subrange(start as int, n as int);
    proof {
        assert(text@[0] as u8 == first);
        assert((text@[0] == '+') == (first == 43));
        assert((text@[0] == '-') == (first == 45));
        if start == 0 {
            assert(digits =~= text@);
        }
    }
    let mut magnitude: i128 = 0;
    let mut k: usize = start;
    while k < n
        invariant
            text.is_ascii(),
            n == text@.len(),
            start <= k <= n,
            digits == text@.subrange(start as int, n as int),
            forall|i: int| 0 <= i < k - start ==> is_digit(#[trigger] digits[i]),
            magnitude == digits_value(digits.take(k - start)),
            0 <= magnitude <= limit <= 0x1_0000_0000_0000_0000,
        decreases n - k,
    {
        let b: u8 = text.get_ascii(k);
        assert(digits[k - start] == text@[k as int]);
        if b < 48 || b > 57 {
            assert(!is_digit(digits[k - start]));
            return None;
        }
        assert(is_digit(digits[k - start]));
        proof {
            let longer = digits.take(k - start + 1);
            assert(longer.drop_last() =~= digits.take(k - start));
            assert(longer.last() == digits[k - start]);
        }
        magnitude = magnitude * 10 + (b - 48) as i128;
        assert(magnitude == digits_value(digits.take(k - start + 1)));
        if magnitude > limit {
            proof {
                if is_digits(digits) {
                    lemma_digits_value_grows(digits, k - start + 1);
                }
            }
            return None;
        }
        k = k + 1;
    }
    assert(digits.take(k - start) =~= digits);
    if negative {
        Some(-magnitude)
    } else {
        Some(magnitude)
    }
}

/// Reads `text` as an `i64`, as `str::parse` does: an optional sign, then
/// digits.
pub fn parse_i64(text: &str) -> (r: Option<i64>)
    ensures
        match r {
            Some(v) => integer_value(text@) == Some(v as int),
            None => integer_value(text@) is None,
        },
{
    match parse_decimal(text, true, i64::MIN as i128, i64::MAX as i128) {
        Some(v) => Some(v as i64),
        None => None,
    }
}

/// Reads `text` as a `usize`, as `str::parse` does: an optional `+`, then
/// digits.
pub fn parse_usize(text: &str) -> (r: Option<usize>)
    ensures
        match r {
            Some(v) => length_value(text@) == Some(v as int),
            None => length_value(text@) is None,
        },
{
    match parse_decimal(text, false, 0, usize::MAX as i128) {
        Some(v) => Some(v as usize),
        None => None,
    }
}

/// Reads `text` as a truth value, as `str::parse` does: `true` or `false`.
pub fn parse_bool(text: &str) -> (r: Option<bool>)
    ensures
        r == bool_value(text@),
{
    proof {
        reveal_strlit("true");
        reveal_strlit("false");
        assert("true"@ =~= seq!['t', 'r', 'u', 'e']);
        assert("false"@ =~= seq!['f', 'a', 'l', 's', 'e']);
    }
    let owned = text.to_owned();
    if owned == "true".to_owned() {
        Some(true)
    } else if owned == "false".to_owned() {
        Some(false)
    } else {
        None
    }
}

/// The text of one digit.
fn digit_text(d: u8) -> (s: &'static str)
    requires
        d < 10,
    ensures
        s@ == seq![digit_char(d as int)],
{
    proof {
        reveal_strlit("0");
        reveal_strlit("1");
        reveal_strlit("2");
        reveal_strlit("3");
        reveal_strlit("4");
        reveal_strlit("5");
        reveal_strlit("6");
        reveal_strlit("7");
        reveal_strlit("8");
        reveal_strlit("9");
    }
    let s = match d {
        0 => "0",
        1 => "1",
        2 => "2",
        3 => "3",
        4 => "4",
        5 => "5",
        6 => "6",
        7 => "7",
        8 => "8",
        _ => "9",
    };
    assert(s@ =~= seq![digit_char(d as int)]);
    s
}

/// Writes a natural number in base ten.
pub fn natural_to_string(n: u128) -> (s: String)
    ensures
        s@ == natural_text(n as nat),
    decreases n,
{
    if n < 10 {
        digit_text(n as u8).to_owned()
    } else {
        let mut s = natural_to_string(n / 10);
        s.append(digit_text((n % 10) as u8));
        assert(s@ =~= natural_text((n / 10) as nat).push(digit_char((n % 10) as int)));
        s
    }
}

/// Writes an integer in base ten.
pub fn integer_to_string(n: i128) -> (s: String)
    ensures
        s@ == decimal_text(n as int),
{
    if n < 0 {
        let magnitude: u128 = ((-(n + 1)) as u128) + 1;
        let mut s = "-".to_owned();
        proof {
            reveal_strlit("-");
        }
        s.append(natural_to_string(magnitude).as_str());
        assert(s@ =~= seq!['-'] + natural_text((-n) as nat));
        s
    } else {
        natural_to_string(n as u128)
    }
}

} // verus!
