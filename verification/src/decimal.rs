//! Decimal integers in operands.
//!
//! An integer operand is written as an optional sign followed by one or more
//! decimal digits: `+` or `-` for an exit code, `+` only for a jump target.
//! A number outside the range of its type is not an integer operand.

use vstd::prelude::*;

verus! {

/// The value of a decimal digit, or `None` for any other character.
pub open spec fn digit_of(c: char) -> Option<int> {
    if '0' <= c && c <= '9' {
        Some(c as int - '0' as int)
    } else {
        None
    }
}

/// Whether every character of `text` is a decimal digit.
pub open spec fn all_digits(text: Seq<char>) -> bool {
    forall|i: int| 0 <= i < text.len() ==> (#[trigger] digit_of(text[i])) is Some
}

/// The number that a sequence of decimal digits denotes.
pub open spec fn decimal_value(text: Seq<char>) -> int
    decreases text.len(),
{
    if text.len() == 0 {
        0
    } else {
        decimal_value(text.drop_last()) * 10 + digit_of(text.last())->0
    }
}

/// The number that `text` denotes when it is one or more decimal digits and
/// the number does not exceed `limit`.
pub open spec fn magnitude(text: Seq<char>, limit: int) -> Option<int> {
    if text.len() > 0 && all_digits(text) && decimal_value(text) <= limit {
        Some(decimal_value(text))
    } else {
        None
    }
}

/// The number that `text` denotes as an unsigned integer of at most `limit`:
/// digits, with or without a leading `+`.
pub open spec fn unsigned_of(text: Seq<char>, limit: int) -> Option<int> {
    if text.len() > 0 && text[0] == '+' {
        magnitude(text.skip(1), limit)
    } else {
        magnitude(text, limit)
    }
}

/// The exit code that `text` denotes: digits with an optional sign, within
/// the range of `i64`.
pub open spec fn exit_code_of(text: Seq<char>) -> Option<i64> {
    if text.len() > 0 && text[0] == '-' {
        match magnitude(text.skip(1), 0x8000_0000_0000_0000) {
            Some(m) => Some((-m) as i64),
            None => None,
        }
    } else {
        match unsigned_of(text, i64::MAX as int) {
            Some(m) => Some(m as i64),
            None => None,
        }
    }
}

/// The jump target that `text` denotes: digits with an optional `+`, within
/// the range of `usize`.
pub open spec fn target_of(text: Seq<char>) -> Option<usize> {
    match unsigned_of(text, usize::MAX as int) {
        Some(m) => Some(m as usize),
        None => None,
    }
}

/// A sequence of digits denotes at least as much as any of its prefixes, and
/// never less than zero.
pub proof fn lemma_prefix_value(text: Seq<char>, k: int)
    requires
        0 <= k <= text.len(),
        all_digits(text),
    ensures
        0 <= decimal_value(text.take(k)) <= decimal_value(text),
    decreases text.len(),
{
    if k == text.len() {
        assert(text.take(k) =~= text);
        if text.len() > 0 {
            assert(digit_of(text[text.len() - 1]) is Some);
            assert(text.drop_last().take(k - 1) =~= text.drop_last());
            lemma_prefix_value(text.drop_last(), k - 1);
        }
    } else {
        assert(digit_of(text[text.len() - 1]) is Some);
        assert(text.drop_last().take(k) =~= text.take(k));
        lemma_prefix_value(text.drop_last(), k);
    }
}

/// Reads the characters of `text` from index `from` on as a number of at
/// most `limit`.
fn parse_magnitude(text: &str, from: usize, limit: u64) -> (r: Option<u64>)
    requires
        from <= text@.len(),
    ensures
        match magnitude(text@.skip(from as int), limit as int) {
            Some(m) => 0 <= m <= limit && r == Some(m as u64),
            None => r.is_none(),
        },
{
    let len: usize = text.unicode_len();
    if from >= len {
        return None;
    }
    let ghost digits = text@.skip(from as int);
    let mut acc: u64 = 0;
    let mut i: usize = from;
    while i < len
        invariant
            from <= i <= len,
            len == text@.len(),
            digits == text@.skip(from as int),
            all_digits(digits.take(i - from)),
            acc == decimal_value(digits.take(i - from)),
            acc <= limit,
        decreases len - i,
    {
        let c: char = text.get_char(i);
        assert(digits[i - from] == c);
        if c < '0' || c > '9' {
            assert(digit_of(digits[i - from]) is None);
            return None;
        }
        let d: u64 = (c as u32 - '0' as u32) as u64;
        let wide: u128 = acc as u128 * 10 + d as u128;
        proof {
            let longer = digits.take(i + 1 - from);
            assert(longer.drop_last() =~= digits.take(i - from));
            assert(longer.last() == c);
            assert(all_digits(longer)) by {
                assert forall|j: int| 0 <= j < longer.len() implies (#[trigger] digit_of(
                    longer[j],
                )) is Some by {
                    if j < i - from {
                        assert(digits.take(i - from)[j] == longer[j]);
                    }
                }
            }
            assert(wide == decimal_value(longer));
        }
        if wide > limit as u128 {
            proof {
                if all_digits(digits) {
                    lemma_prefix_value(digits, i + 1 - from);
                }
            }
            return None;
        }
        acc = wide as u64;
        i = i + 1;
    }
    proof {
        assert(digits.take(len - from) =~= digits);
    }
    Some(acc)
}

/// Reads `text` as a jump target.
pub fn parse_target(text: &str) -> (r: Option<usize>)
    ensures
        r == target_of(text@),
{
    let len: usize = text.unicode_len();
    let limit: u64 = usize::MAX as u64;
    proof {
        assert(text@.skip(0) =~= text@);
    }
    let found = if len > 0 && text.get_char(0) == '+' {
        parse_magnitude(text, 1, limit)
    } else {
        parse_magnitude(text, 0, limit)
    };
    match found {
        Some(m) => Some(m as usize),
        None => None,
    }
}

/// Reads `text` as an exit code.
pub fn parse_exit_code(text: &str) -> (r: Option<i64>)
    ensures
        r == exit_code_of(text@),
{
    let len: usize = text.unicode_len();
    proof {
        assert(text@.skip(0) =~= text@);
    }
    if len > 0 && text.get_char(0) == '-' {
        match parse_magnitude(text, 1, 0x8000_0000_0000_0000) {
            Some(m) => {
                if m == 0x8000_0000_0000_0000 {
                    Some(i64::MIN)
                } else {
                    Some(-(m as i64))
                }
            },
            None => None,
        }
    } else {
        let found = if len > 0 && text.get_char(0) == '+' {
            parse_magnitude(text, 1, i64::MAX as u64)
        } else {
            parse_magnitude(text, 0, i64::MAX as u64)
        };
        match found {
            Some(m) => Some(m as i64),
            None => None,
        }
    }
}

} // verus!
