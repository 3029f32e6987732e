//! Reading the pointer position that a scripting host prints as two
//! integers, `x, y`.

use crate::text::{chars_of, trim_bounds, trimmed};
use crate::types::CursorPosition;
use vstd::prelude::*;

verus! {

/// A decimal digit.
pub open spec fn is_digit(c: char) -> bool {
    '0' <= c <= '9'
}

/// The number a run of decimal digits denotes.
pub open spec fn digits_value(s: Seq<char>) -> nat
    decreases s.len(),
{
    if s.len() == 0 {
        0
    } else {
        10 * digits_value(s.drop_last()) + (s.last() as u32 - '0' as u32) as nat
    }
}

/// Every character is a decimal digit.
pub open spec fn all_digits(s: Seq<char>) -> bool {
    forall|i: int| 0 <= i < s.len() ==> is_digit(#[trigger] s[i])
}

/// The 32-bit integer that a sign and a run of digits denote: there is at
/// least one digit, all are decimal, and the type can hold the value.
pub open spec fn i32_from_digits(negative: bool, digits: Seq<char>) -> Option<i32> {
    if digits.len() == 0 || !all_digits(digits) {
        None
    } else if negative {
        if digits_value(digits) <= 0x8000_0000 {
            Some((-(digits_value(digits) as int)) as i32)
        } else {
            None
        }
    } else {
        if digits_value(digits) <= 0x7fff_ffff {
            Some(digits_value(digits) as i32)
        } else {
            None
        }
    }
}

/// The 32-bit integer that `s` spells: an optional sign, `+` or `-`, and
/// then the digits.
pub open spec fn i32_of(s: Seq<char>) -> Option<i32> {
    if s.len() > 0 && s[0] == '-' {
        i32_from_digits(true, s.drop_first())
    } else if s.len() > 0 && s[0] == '+' {
        i32_from_digits(false, s.drop_first())
    } else {
        i32_from_digits(false, s)
    }
}

/// Index of the first comma that a space follows, and the length of `s`
/// where there is none.
pub open spec fn separator_index(s: Seq<char>) -> nat
    decreases s.len(),
{
    if s.len() == 0 {
        0
    } else if s.len() >= 2 && s[0] == ',' && s[1] == ' ' {
        0
    } else {
        1 + separator_index(s.drop_first())
    }
}

/// The position that the host's output spells: trimmed, it is two integers
/// with a comma and a space between them.
pub open spec fn position_of(output: Seq<char>) -> Option<CursorPosition> {
    let line = trimmed(output);
    let at = separator_index(line);
    if at >= line.len() {
        None
    } else {
        match (i32_of(line.take(at as int)), i32_of(line.skip(at as int + 2))) {
            (Some(x), Some(y)) => Some(CursorPosition { x, y }),
            _ => None,
        }
    }
}

/// A longer run of digits denotes no smaller number.
proof fn lemma_digits_value_grows(s: Seq<char>, k: int)
    requires
        0 <= k <= s.len(),
    ensures
        digits_value(s.take(k)) <= digits_value(s),
    decreases s.len() - k,
{
    if k < s.len() {
        lemma_digits_value_grows(s, k + 1);
        assert(s.take(k + 1).drop_last() =~= s.take(k));
    } else {
        assert(s.take(k) =~= s);
    }
}

/// Reads the integer that `s[from..to]` spells.
fn read_i32(s: &[char], from: usize, to: usize) -> (r: Option<i32>)
    requires
        from <= to <= s@.len(),
    ensures
        r == i32_of(s@.subrange(from as int, to as int)),
{
    let ghost text = s@.subrange(from as int, to as int);
    if from == to {
        return None;
    }
    let negative = s[from] == '-';
    let start: usize = if s[from] == '-' || s[from] == '+' {
        from + 1
    } else {
        from
    };
    let ghost digits = s@.subrange(start as int, to as int);
    proof {
        assert(text[0] == s@[from as int]);
        if start == from + 1 {
            assert(text.drop_first() =~= digits);
        } else {
            assert(text =~= digits);
        }
    }
    assert(i32_of(text) == i32_from_digits(negative, digits));
    if start == to {
        return None;
    }
    let mut value: u64 = 0;
    let mut i: usize = start;
    assert(digits.take(0) =~= Seq::<char>::empty());
    while i < to
        invariant
            from <= start <= i <= to <= s@.len(),
            digits == s@.subrange(start as int, to as int),
            i32_of(s@.subrange(from as int, to as int)) == i32_from_digits(negative, digits),
            all_digits(digits.take(i - start)),
            value == digits_value(digits.take(i - start)),
            value <= 0x8000_0000,
        decreases to - i,
    {
        let c = s[i];
        if c < '0' || c > '9' {
            assert(!is_digit(digits[i - start]));
            return None;
        }
        let digit: u64 = (c as u32 - '0' as u32) as u64;
        proof {
            let next = digits.take(i - start + 1);
            assert(next.drop_last() =~= digits.take(i - start));
            assert(next.last() == c);
            assert forall|j: int| 0 <= j < next.len() implies is_digit(#[trigger] next[j]) by {
                if j < i - start {
                    assert(is_digit(digits.take(i - start)[j]));
                }
            }
        }
        value = 10 * value + digit;
        if value > 0x8000_0000 {
            // Too large whatever follows: more digits only make it larger,
            // and anything else is no integer at all.
            let mut k: usize = i + 1;
            while k < to
                invariant
                    from <= start <= i < k <= to <= s@.len(),
                    digits == s@.subrange(start as int, to as int),
                    i32_of(s@.subrange(from as int, to as int)) == i32_from_digits(
                        negative,
                        digits,
                    ),
                    digits_value(digits.take(i - start + 1)) > 0x8000_0000,
                    all_digits(digits.take(k - start)),
                decreases to - k,
            {
                let d = s[k];
                if d < '0' || d > '9' {
                    assert(!is_digit(digits[k - start]));
                    return None;
                }
                proof {
                    let next = digits.take(k - start + 1);
                    assert forall|j: int| 0 <= j < next.len() implies is_digit(
                        #[trigger] next[j],
                    ) by {
                        if j < k - start {
                            assert(is_digit(digits.take(k - start)[j]));
                        }
                    }
                }
                k = k + 1;
            }
            proof {
                assert(digits.take(to - start) =~= digits);
                lemma_digits_value_grows(digits, i - start + 1);
            }
            return None;
        }
        i = i + 1;
    }
    proof {
        assert(digits.take(to - start) =~= digits);
    }
    if negative {
        Some((-(value as i64)) as i32)
    } else if value <= 0x7fff_ffff {
        Some(value as i32)
    } else {
        None
    }
}

/// Index of the first comma that a space follows in `s[from..to]`, counted
/// from `from`, or the length of that range.
fn find_separator(s: &[char], from: usize, to: usize) -> (at: usize)
    requires
        from <= to <= s@.len(),
    ensures
        from <= at <= to,
        at < to ==> at + 2 <= to,
        at - from == separator_index(s@.subrange(from as int, to as int)),
{
    let mut at: usize = from;
    while at < to && !(to - at >= 2 && s[at] == ',' && s[at + 1] == ' ')
        invariant
            from <= at <= to <= s@.len(),
            separator_index(s@.subrange(from as int, to as int)) == (at - from) + separator_index(
                s@.subrange(at as int, to as int),
            ),
        decreases to - at,
    {
        proof {
            assert(s@.subrange(at as int, to as int).drop_first() =~= s@.subrange(
                at + 1,
                to as int,
            ));
        }
        at = at + 1;
    }
    at
}

/// Reads the pointer position from the host's output, `None` where the
/// output is not of the form `x, y`.
pub fn parse_cursor_position(output: &str) -> (r: Option<CursorPosition>)
    ensures
        r == position_of(output@),
{
    let chars = chars_of(output);
    let s = chars.as_slice();
    assert(s@.subrange(0, s@.len() as int) =~= output@);
    let (from, to) = trim_bounds(s, 0, s.len());
    let ghost line = s@.subrange(from as int, to as int);
    let at = find_separator(s, from, to);
    if at >= to {
        return None;
    }
    proof {
        assert(line.take(at - from) =~= s@.subrange(from as int, at as int));
        assert(line.skip(at - from + 2) =~= s@.subrange(at + 2, to as int));
    }
    let x = read_i32(s, from, at);
    let y = read_i32(s, at + 2, to);
    match (x, y) {
        (Some(x), Some(y)) => Some(CursorPosition { x, y }),
        _ => None,
    }
}

/// The pointer position to place the capture indicator by: what the output
/// spells, and the fallback where it spells none.
pub fn cursor_position_or_fallback(output: &str) -> (p: CursorPosition)
    ensures
        p == match position_of(output@) {
            Some(found) => found,
            None => (CursorPosition {
                x: crate::types::FALLBACK_CURSOR_X,
                y: crate::types::FALLBACK_CURSOR_Y,
            }),
        },
{
    match parse_cursor_position(output) {
        Some(found) => found,
        None => CursorPosition::fallback(),
    }
}

} // verus!
