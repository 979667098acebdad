//! Reading text: unsigned decimal numbers, and trimming of white space.

use vstd::prelude::*;
use vstd::string::StrSliceExecFns;

verus! {

/// Whether the character is one of the ten decimal digits `0` to `9`.
pub open spec fn is_digit(c: char) -> bool {
    48 <= c as u32 <= 57
}

/// Every character is a decimal digit.
pub open spec fn all_digits(digits: Seq<char>) -> bool {
    forall|i: int| 0 <= i < digits.len() ==> is_digit(#[trigger] digits[i])
}

/// The number that a run of decimal digits writes, most significant digit
/// first; 0 for the empty run.
pub open spec fn digits_value(digits: Seq<char>) -> nat
    decreases digits.len(),
{
    if digits.len() == 0 {
        0
    } else {
        10 * digits_value(digits.drop_last()) + (digits.last() as u32 - 48) as nat
    }
}

/// The text without a leading plus sign.
pub open spec fn unsigned_part(text: Seq<char>) -> Seq<char> {
    if text.len() > 0 && text[0] == '+' {
        text.drop_first()
    } else {
        text
    }
}

/// The unsigned 64-bit number that a text writes in decimal: an optional
/// plus sign, then one or more digits and nothing else, the number no more
/// than the largest `u64`. `None` for any other text.
pub open spec fn decimal_u64(text: Seq<char>) -> Option<u64> {
    let digits = unsigned_part(text);
    if digits.len() > 0 && all_digits(digits) && digits_value(digits) <= u64::MAX {
        Some(digits_value(digits) as u64)
    } else {
        None
    }
}

/// A run of digits writes no less than any of its beginnings.
pub proof fn lemma_digits_value_grows(digits: Seq<char>, k: int)
    requires
        0 <= k <= digits.len(),
        all_digits(digits),
    ensures
        digits_value(digits.take(k)) <= digits_value(digits),
    decreases digits.len(),
{
    if k == digits.len() {
        assert(digits.take(k) =~= digits);
    } else {
        let shorter = digits.drop_last();
        assert(shorter.take(k) =~= digits.take(k));
        assert(is_digit(digits.last()));
        assert forall|i: int| 0 <= i < shorter.len() implies is_digit(#[trigger] shorter[i]) by {
            assert(shorter[i] == digits[i]);
        }
        lemma_digits_value_grows(shorter, k);
    }
}

/// Reads an unsigned 64-bit number written in decimal. Gives `None` where
/// the text is no such number: where it is empty, holds anything but digits
/// after an optional leading plus sign, or writes a number that is too large.
pub fn parse_u64(text: &str) -> (value: Option<u64>)
    ensures
        value == decimal_u64(text@),
{
    let ghost digits = unsigned_part(text@);
    let mut value: u64 = 0;
    let mut first = true;
    let mut any = false;
    let ghost mut skipped: int = 0;
    for c in it: text.chars()
        invariant
            it.seq() == text@,
            digits == unsigned_part(text@),
            first ==> it.index() == 0 && !any && value == 0 && skipped == 0,
            !first ==> it.index() >= 1 && skipped == (if text@[0] == '+' {
                1int
            } else {
                0int
            }),
            0 <= skipped <= it.index(),
            any == (it.index() - skipped > 0),
            all_digits(digits.take(it.index() - skipped)),
            value == digits_value(digits.take(it.index() - skipped)),
    {
        let ghost k = it.index() as int;
        if first && c == '+' {
            first = false;
            proof {
                skipped = 1;
                assert(digits.take(0) =~= Seq::<char>::empty());
            }
        } else {
            let ghost before = digits.take(k - skipped);
            let ghost after = digits.take(k - skipped + 1);
            proof {
                if first {
                    assert(digits == text@);
                } else {
                    assert(c == digits[k - skipped]);
                }
                assert(after.drop_last() =~= before);
                assert(after.last() == c);
            }
            first = false;
            let code = c as u32;
            if code < 48 || code > 57 {
                assert(!is_digit(digits[k - skipped]));
                return None;
            }
            let digit = (code - 48) as u64;
            if value > (u64::MAX - digit) / 10 {
                proof {
                    assert(digits_value(after) == 10 * value + digit);
                    assert(digits_value(after) > u64::MAX);
                    if all_digits(digits) {
                        lemma_digits_value_grows(digits, k - skipped + 1);
                    }
                }
                return None;
            }
            value = value * 10 + digit;
            any = true;
            proof {
                assert forall|i: int| 0 <= i < after.len() implies is_digit(#[trigger] after[i]) by {
                    if i < before.len() {
                        assert(after[i] == before[i]);
                    }
                }
            }
        }
    }
    proof {
        if !first {
            assert(digits.take(text@.len() - skipped) =~= digits);
        }
    }
    if any {
        Some(value)
    } else {
        None
    }
}

/// Whether the character is white space: one of the characters with the
/// Unicode property `White_Space`.
pub open spec fn is_white_space(c: char) -> bool {
    let code = c as u32;
    ||| 0x09 <= code <= 0x0D
    ||| code == 0x20
    ||| code == 0x85
    ||| code == 0xA0
    ||| code == 0x1680
    ||| 0x2000 <= code <= 0x200A
    ||| code == 0x2028
    ||| code == 0x2029
    ||| code == 0x202F
    ||| code == 0x205F
    ||| code == 0x3000
}

/// The number of white-space characters that the text begins with.
pub open spec fn leading_white_space(text: Seq<char>) -> nat
    decreases text.len(),
{
    if text.len() == 0 || !is_white_space(text.first()) {
        0
    } else {
        1 + leading_white_space(text.drop_first())
    }
}

/// The number of white-space characters that the text ends with.
pub open spec fn trailing_white_space(text: Seq<char>) -> nat
    decreases text.len(),
{
    if text.len() == 0 || !is_white_space(text.last()) {
        0
    } else {
        1 + trailing_white_space(text.drop_last())
    }
}

/// The text without the white space that it begins and ends with.
pub open spec fn trimmed(text: Seq<char>) -> Seq<char> {
    if leading_white_space(text) == text.len() {
        Seq::empty()
    } else {
        text.subrange(leading_white_space(text) as int, text.len() - trailing_white_space(text))
    }
}

/// Where the first `count` characters are white space and the next one, if
/// there is one, is not, the text begins with `count` white-space characters.
pub proof fn lemma_leading_white_space(text: Seq<char>, count: int)
    requires
        0 <= count <= text.len(),
        forall|i: int| 0 <= i < count ==> is_white_space(#[trigger] text[i]),
        count < text.len() ==> !is_white_space(text[count]),
    ensures
        leading_white_space(text) == count,
    decreases text.len(),
{
    if count > 0 {
        let rest = text.drop_first();
        assert(is_white_space(text[0]));
        assert forall|i: int| 0 <= i < count - 1 implies is_white_space(#[trigger] rest[i]) by {
            assert(rest[i] == text[i + 1]);
        }
        if count - 1 < rest.len() {
            assert(rest[count - 1] == text[count]);
        }
        lemma_leading_white_space(rest, count - 1);
    }
}

/// Where the last `count` characters are white space and the one before
/// them, if there is one, is not, the text ends with `count` white-space
/// characters.
pub proof fn lemma_trailing_white_space(text: Seq<char>, count: int)
    requires
        0 <= count <= text.len(),
        forall|i: int| text.len() - count <= i < text.len() ==> is_white_space(#[trigger] text[i]),
        count < text.len() ==> !is_white_space(text[text.len() - count - 1]),
    ensures
        trailing_white_space(text) == count,
    decreases text.len(),
{
    if count > 0 {
        let rest = text.drop_last();
        assert(is_white_space(text[text.len() - 1]));
        assert forall|i: int| rest.len() - (count - 1) <= i < rest.len() implies is_white_space(
            #[trigger] rest[i],
        ) by {
            assert(rest[i] == text[i]);
        }
        if count - 1 < rest.len() {
            assert(rest[rest.len() - (count - 1) - 1] == text[text.len() - count - 1]);
        }
        lemma_trailing_white_space(rest, count - 1);
    }
}

/// Whether the character is white space.
pub fn white_space(c: char) -> (white: bool)
    ensures
        white == is_white_space(c),
{
    let code = c as u32;
    (0x09 <= code && code <= 0x0D) || code == 0x20 || code == 0x85 || code == 0xA0 || code
        == 0x1680 || (0x2000 <= code && code <= 0x200A) || code == 0x2028 || code == 0x2029
        || code == 0x202F || code == 0x205F || code == 0x3000
}

/// The text without the white space that it begins and ends with.
pub fn trim(text: &str) -> (inner: String)
    ensures
        inner@ == trimmed(text@),
{
    let length = text.unicode_len();
    let mut start: usize = 0;
    let mut end: usize = 0;
    let mut found = false;
    let mut position: usize = 0;
    for c in it: text.chars()
        invariant
            it.seq() == text@,
            length == text@.len(),
            position == it.index(),
            position <= length,
            !found ==> start == 0 && end == 0,
            !found ==> forall|i: int| 0 <= i < position ==> is_white_space(#[trigger] text@[i]),
            found ==> start < end <= position,
            found ==> !is_white_space(text@[start as int]) && !is_white_space(text@[end - 1]),
            found ==> forall|i: int| 0 <= i < start ==> is_white_space(#[trigger] text@[i]),
            found ==> forall|i: int| end <= i < position ==> is_white_space(#[trigger] text@[i]),
    {
        if !white_space(c) {
            if !found {
                start = position;
                found = true;
            }
            end = position + 1;
        }
        position += 1;
    }
    if !found {
        proof {
            lemma_leading_white_space(text@, text@.len() as int);
        }
        return String::new();
    }
    proof {
        lemma_leading_white_space(text@, start as int);
        lemma_trailing_white_space(text@, text@.len() - end);
    }
    text.substring_char(start, end).to_string()
}

} // verus!
