//! The typed values that the text of a field stands for.

use crate::decimal::{decimal_text, digit_char};
use vstd::prelude::*;

verus! {

broadcast use vstd::string::group_string_axioms;

/// Whether `c` is one of the ten decimal digits.
pub open spec fn is_digit(c: char) -> bool {
    '0' <= c <= '9'
}

/// The number that the digit `c` stands for.
pub open spec fn digit_value(c: char) -> nat {
    if is_digit(c) {
        (c as int - '0' as int) as nat
    } else {
        0
    }
}

/// Whether `text` holds decimal digits only.
pub open spec fn all_digits(text: Seq<char>) -> bool {
    forall|i: int| 0 <= i < text.len() ==> is_digit(#[trigger] text[i])
}

/// The number that the digits of `text` spell, most significant first.
pub open spec fn digits_value(text: Seq<char>) -> nat
    decreases text.len(),
{
    if text.len() == 0 {
        0
    } else {
        digits_value(text.drop_last()) * 10 + digit_value(text.last())
    }
}

/// `text` without the plus sign that may lead it.
pub open spec fn without_plus(text: Seq<char>) -> Seq<char> {
    if text.len() > 0 && text[0] == '+' {
        text.skip(1)
    } else {
        text
    }
}

/// The 16-bit number that `text` stands for: an optional plus sign, then
/// one or more decimal digits that spell a number up to 65535. Any other
/// text, a larger number among them, stands for none.
pub open spec fn parse_u16(text: Seq<char>) -> Option<u16> {
    let digits = without_plus(text);
    if digits.len() > 0 && all_digits(digits) && digits_value(digits) <= u16::MAX {
        Some(digits_value(digits) as u16)
    } else {
        None
    }
}

/// The truth value that `text` stands for: `true` or `1`, `false` or `0`.
pub open spec fn parse_bool(text: Seq<char>) -> Option<bool> {
    if text == "true"@ || text == "1"@ {
        Some(true)
    } else if text == "false"@ || text == "0"@ {
        Some(false)
    } else {
        None
    }
}

/// The digits of a prefix spell no more than the digits of the whole.
pub proof fn lemma_digits_value_prefix(text: Seq<char>, k: int)
    requires
        0 <= k <= text.len(),
    ensures
        digits_value(text.take(k)) <= digits_value(text),
    decreases text.len() - k,
{
    if k == text.len() {
        assert(text.take(k) =~= text);
    } else {
        lemma_digits_value_prefix(text, k + 1);
        assert(text.take(k + 1).drop_last() =~= text.take(k));
    }
}

/// The decimal text of a number holds digits only, at least one, and
/// spells that number.
pub proof fn lemma_decimal_text_spells(n: nat)
    ensures
        decimal_text(n).len() > 0,
        all_digits(decimal_text(n)),
        digits_value(decimal_text(n)) == n,
    decreases n,
{
    let text = decimal_text(n);
    if n < 10 {
        assert(digit_value(digit_char(n)) == n);
        assert(text.drop_last() =~= Seq::<char>::empty());
        assert(text.last() == digit_char(n));
        assert(digits_value(text.drop_last()) == 0);
    } else {
        lemma_decimal_text_spells(n / 10);
        assert(digit_value(digit_char(n % 10)) == n % 10);
        assert(text.drop_last() =~= decimal_text(n / 10));
        assert(text.last() == digit_char(n % 10));
    }
    assert(digits_value(text) == digits_value(text.drop_last()) * 10 + digit_value(text.last()));
}

/// A 16-bit number is read back from its decimal text.
pub proof fn lemma_parse_u16_reads_decimal_text(n: u16)
    ensures
        parse_u16(decimal_text(n as nat)) == Some(n),
{
    lemma_decimal_text_spells(n as nat);
    assert(is_digit(decimal_text(n as nat)[0]));
}

/// Text that spells a number beyond 65535 is not read as a number: nothing
/// is cut off or wrapped around. Text that is read holds digits only,
/// behind the plus sign that may lead it, and spells what was read.
pub proof fn lemma_parse_u16_is_exact(text: Seq<char>)
    ensures
        digits_value(without_plus(text)) > 65535 ==> parse_u16(text) is None,
        parse_u16(text) matches Some(n) ==> all_digits(without_plus(text)) && digits_value(
            without_plus(text),
        ) == n,
{
}

/// Reads a 16-bit number.
pub fn read_u16(text: &str) -> (value: Option<u16>)
    ensures
        value == parse_u16(text@),
{
    let mut value: u32 = 0;
    let mut first = true;
    let mut plus = false;
    let mut any = false;
    let ghost mut digits: Seq<char> = Seq::empty();
    for c in it: text.chars()
        invariant
            it.seq() == text@,
            first <==> it.index() == 0,
            plus ==> it.index() >= 1 && text@[0] == '+',
            !plus && !first ==> text@[0] != '+',
            digits == if plus {
                text@.subrange(1, it.index() as int)
            } else {
                text@.take(it.index() as int)
            },
            any <==> digits.len() > 0,
            all_digits(digits),
            value == digits_value(digits),
            value <= u16::MAX,
    {
        let ghost whole = without_plus(text@);
        if first && c == '+' {
            plus = true;
            proof {
                digits = text@.subrange(1, 1);
            }
        } else {
            proof {
                assert(whole.take(digits.len() as int + 1) =~= digits.push(c));
                assert(digits.push(c).drop_last() =~= digits);
                lemma_digits_value_prefix(whole, digits.len() as int + 1);
            }
            if !('0' <= c && c <= '9') {
                assert(!is_digit(whole[digits.len() as int]));
                return None;
            }
            let d: u32 = c as u32 - '0' as u32;
            let next: u32 = value * 10 + d;
            if next > 65535 {
                return None;
            }
            value = next;
            any = true;
            proof {
                digits = digits.push(c);
            }
        }
        first = false;
    }
    assert(digits =~= without_plus(text@));
    if !any {
        return None;
    }
    Some(value as u16)
}

/// Reads a truth value.
pub fn read_bool(text: &String) -> (value: Option<bool>)
    ensures
        value == parse_bool(text@),
{
    if *text == "true".to_owned() || *text == "1".to_owned() {
        Some(true)
    } else if *text == "false".to_owned() || *text == "0".to_owned() {
        Some(false)
    } else {
        None
    }
}

} // verus!
