//! What was typed into a field, read as a number.

use vstd::prelude::*;

verus! {

/// Every character of `text` is a decimal digit.
pub open spec fn is_digits(text: Seq<char>) -> bool {
    forall|i: int| 0 <= i < text.len() ==> '0' <= #[trigger] text[i] <= '9'
}

/// The number that the decimal digits `text` spell.
pub open spec fn spec_digits_value(text: Seq<char>) -> nat
    decreases text.len(),
{
    if text.len() == 0 {
        0
    } else {
        spec_digits_value(text.drop_last()) * 10 + (text.last() as nat - '0' as nat) as nat
    }
}

/// The digits of `text`: the text itself, or what follows a plus sign at its
/// start.
pub open spec fn spec_unsigned_digits(text: Seq<char>) -> Seq<char> {
    if text.len() > 0 && text[0] == '+' {
        text.subrange(1, text.len() as int)
    } else {
        text
    }
}

/// The number that `text` spells, if it is no more than `max`: the text is a
/// plus sign or nothing, followed by one decimal digit at least and nothing
/// else.
pub open spec fn spec_parse_unsigned(text: Seq<char>, max: nat) -> Option<nat> {
    let digits = spec_unsigned_digits(text);
    if digits.len() > 0 && is_digits(digits) && spec_digits_value(digits) <= max {
        Some(spec_digits_value(digits))
    } else {
        None
    }
}

/// More digits never spell a smaller number.
pub proof fn lemma_digits_value_grows(text: Seq<char>, n: int)
    requires
        0 <= n <= text.len(),
        is_digits(text),
    ensures
        spec_digits_value(text.subrange(0, n)) <= spec_digits_value(text),
    decreases text.len() - n,
{
    if n < text.len() {
        lemma_digits_value_grows(text, n + 1);
        let longer = text.subrange(0, n + 1);
        assert(longer.drop_last() =~= text.subrange(0, n));
        assert(longer.last() == text[n]);
    } else {
        assert(text.subrange(0, n) =~= text);
    }
}

/// Reads `text` as a number that is no more than `max`, as the standard
/// library reads an unsigned number: `None` for a text that is empty, has
/// anything but digits after an optional plus sign, or spells a number above
/// `max`.
pub fn parse_unsigned(text: &str, max: u64) -> (value: Option<u64>)
    ensures
        match spec_parse_unsigned(text@, max as nat) {
            Some(n) => value == Some(n as u64),
            None => value is None,
        },
{
    let len = text.unicode_len();
    if len == 0 {
        return None;
    }
    let start: usize = if text.get_char(0) == '+' {
        1
    } else {
        0
    };
    if start == len {
        return None;
    }
    let ghost digits = spec_unsigned_digits(text@);
    assert(digits =~= text@.subrange(start as int, len as int));
    let mut value: u64 = 0;
    let mut i: usize = start;
    while i < len
        invariant
            start <= i <= len,
            start < len,
            len == text@.len(),
            digits == spec_unsigned_digits(text@),
            digits == text@.subrange(start as int, len as int),
            is_digits(digits.subrange(0, i - start)),
            value == spec_digits_value(digits.subrange(0, i - start)),
            value <= max,
        decreases len - i,
    {
        let c = text.get_char(i);
        assert(c == digits[i - start]);
        if c < '0' || c > '9' {
            assert(!('0' <= digits[i - start] <= '9'));
            return None;
        }
        let digit = (c as u32 - '0' as u32) as u64;
        proof {
            let longer = digits.subrange(0, i - start + 1);
            assert(longer.drop_last() =~= digits.subrange(0, i - start));
            assert(longer.last() == c);
            assert(is_digits(longer)) by {
                assert forall|k: int| 0 <= k < longer.len() implies '0' <= #[trigger] longer[k]
                    <= '9' by {
                    if k < i - start {
                        assert(longer[k] == digits.subrange(0, i - start)[k]);
                    }
                }
            }
            assert(spec_digits_value(longer) == value * 10 + digit);
        }
        if digit > max || value > (max - digit) / 10 {
            proof {
                assert(value * 10 + digit > max) by (nonlinear_arith)
                    requires
                        digit > max || (digit <= max && value > (max - digit) / 10),
                        0 <= digit <= 9,
                        0 <= value,
                ;
                if is_digits(digits) {
                    lemma_digits_value_grows(digits, i - start + 1);
                }
            }
            return None;
        }
        assert(value * 10 + digit <= max) by (nonlinear_arith)
            requires
                value <= (max - digit) / 10,
                digit <= max,
                0 <= digit,
        ;
        value = value * 10 + digit;
        i = i + 1;
    }
    proof {
        assert(digits.subrange(0, i - start) =~= digits);
    }
    Some(value)
}

/// Whether two texts are the same.
pub fn same_text(first: &str, second: &str) -> (same: bool)
    ensures
        same == (first@ == second@),
{
    String::from_str(first) == String::from_str(second)
}

/// `text` begins with `prefix`.
pub open spec fn spec_begins_with(text: Seq<char>, prefix: Seq<char>) -> bool {
    prefix.len() <= text.len() && text.subrange(0, prefix.len() as int) == prefix
}

/// Whether `text` begins with `prefix`.
pub fn begins_with(text: &str, prefix: &str) -> (begins: bool)
    ensures
        begins == spec_begins_with(text@, prefix@),
{
    let len = prefix.unicode_len();
    if text.unicode_len() < len {
        return false;
    }
    let mut i: usize = 0;
    while i < len
        invariant
            0 <= i <= len,
            len == prefix@.len(),
            len <= text@.len(),
            text@.subrange(0, i as int) == prefix@.subrange(0, i as int),
        decreases len - i,
    {
        if text.get_char(i) != prefix.get_char(i) {
            assert(text@.subrange(0, len as int)[i as int] != prefix@[i as int]);
            return false;
        }
        assert(text@.subrange(0, i + 1) =~= text@.subrange(0, i as int).push(text@[i as int]));
        assert(prefix@.subrange(0, i + 1) =~= prefix@.subrange(0, i as int).push(
            prefix@[i as int],
        ));
        i = i + 1;
    }
    assert(prefix@.subrange(0, len as int) =~= prefix@);
    true
}

} // verus!
