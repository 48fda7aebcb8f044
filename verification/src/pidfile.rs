//! Reading the PID that a PID file holds.
//!
//! White space at both ends of the content is set aside: every character
//! that Unicode counts as white space, in its UTF-8 form. What is left must
//! be decimal digits, a `+` before them allowed, that write a number of 32
//! bits.

use vstd::prelude::*;

verus! {

/// Whether one byte is a white-space character: a space, or one of the
/// controls from tab to carriage return.
pub open spec fn is_space1(a: u8) -> bool {
    a == 0x20 || (0x09 <= a <= 0x0d)
}

/// Whether two bytes are a white-space character: next line (U+0085) or
/// no-break space (U+00A0).
pub open spec fn is_space2(a: u8, b: u8) -> bool {
    a == 0xc2 && (b == 0x85 || b == 0xa0)
}

/// Whether three bytes are a white-space character: ogham space mark
/// (U+1680), one of the spaces from en quad to hair space (U+2000 to
/// U+200A), line or paragraph separator (U+2028, U+2029), narrow no-break
/// space (U+202F), medium mathematical space (U+205F) or ideographic space
/// (U+3000).
pub open spec fn is_space3(a: u8, b: u8, c: u8) -> bool {
    ||| (a == 0xe1 && b == 0x9a && c == 0x80)
    ||| (a == 0xe2 && b == 0x80 && ((0x80 <= c <= 0x8a) || c == 0xa8 || c == 0xa9 || c == 0xaf))
    ||| (a == 0xe2 && b == 0x81 && c == 0x9f)
    ||| (a == 0xe3 && b == 0x80 && c == 0x80)
}

/// How many bytes the white-space character that starts at `at` takes; 0
/// where none starts there.
pub open spec fn space_at(s: Seq<u8>, at: int) -> int {
    if 0 <= at < s.len() && is_space1(s[at]) {
        1
    } else if 0 <= at && at + 1 < s.len() && is_space2(s[at], s[at + 1]) {
        2
    } else if 0 <= at && at + 2 < s.len() && is_space3(s[at], s[at + 1], s[at + 2]) {
        3
    } else {
        0
    }
}

/// How many bytes the white-space character takes that ends just before
/// `to` and starts no earlier than `from`; 0 where there is none.
pub open spec fn space_before(s: Seq<u8>, from: int, to: int) -> int {
    if 0 <= from < to <= s.len() && is_space1(s[to - 1]) {
        1
    } else if 0 <= from && from + 1 < to <= s.len() && is_space2(s[to - 2], s[to - 1]) {
        2
    } else if 0 <= from && from + 2 < to <= s.len() && is_space3(
        s[to - 3],
        s[to - 2],
        s[to - 1],
    ) {
        3
    } else {
        0
    }
}

/// Where the text starts once the white space from `at` on is set aside.
pub open spec fn skip_front(s: Seq<u8>, at: int) -> int
    decreases s.len() - at,
{
    if space_at(s, at) > 0 {
        skip_front(s, at + space_at(s, at))
    } else {
        at
    }
}

/// Where the text that starts at `from` ends once the white space before
/// `to` is set aside.
pub open spec fn skip_back(s: Seq<u8>, from: int, to: int) -> int
    decreases to - from,
{
    if space_before(s, from, to) > 0 {
        skip_back(s, from, to - space_before(s, from, to))
    } else {
        to
    }
}

/// Where the text without the white space at its ends starts.
pub open spec fn trimmed_from(s: Seq<u8>) -> int {
    skip_front(s, 0)
}

/// Where the text without the white space at its ends stops.
pub open spec fn trimmed_to(s: Seq<u8>) -> int {
    skip_back(s, trimmed_from(s), s.len() as int)
}

/// The text without the white space at its ends.
pub open spec fn trimmed(s: Seq<u8>) -> Seq<u8> {
    s.subrange(trimmed_from(s), trimmed_to(s))
}

/// Whether a byte is a decimal digit.
pub open spec fn is_digit(b: u8) -> bool {
    48 <= b <= 57
}

/// Whether every byte of `s` is a decimal digit.
pub open spec fn all_digits(s: Seq<u8>) -> bool {
    forall|i: int| 0 <= i < s.len() ==> is_digit(#[trigger] s[i])
}

/// The number that a run of decimal digits writes.
pub open spec fn decimal_value(digits: Seq<u8>) -> nat
    decreases digits.len(),
{
    if digits.len() == 0 {
        0
    } else {
        decimal_value(digits.drop_last()) * 10 + (digits.last() - 48) as nat
    }
}

/// The PID that a text writes: one or more decimal digits, a `+` before
/// them allowed, that write a number of 32 bits. Anything else writes none.
pub open spec fn pid_of_digits(text: Seq<u8>) -> Option<u32> {
    let digits = if text.len() > 0 && text[0] == 43 {
        text.drop_first()
    } else {
        text
    };
    if digits.len() > 0 && all_digits(digits) && decimal_value(digits) <= u32::MAX {
        Some(decimal_value(digits) as u32)
    } else {
        None
    }
}

/// The PID that the content of a PID file holds, white space at both ends
/// set aside.
pub open spec fn pid_of(content: Seq<u8>) -> Option<u32> {
    pid_of_digits(trimmed(content))
}

/// A longer run of digits writes no smaller a number.
proof fn lemma_value_grows(digits: Seq<u8>, upto: int)
    requires
        0 <= upto <= digits.len(),
    ensures
        decimal_value(digits.take(upto)) <= decimal_value(digits),
    decreases digits.len() - upto,
{
    if upto < digits.len() {
        lemma_value_grows(digits, upto + 1);
        assert(digits.take(upto + 1).drop_last() =~= digits.take(upto));
    } else {
        assert(digits.take(upto) =~= digits);
    }
}

/// Says how many bytes the white-space character that starts at `at` takes.
pub fn space_len_at(s: &[u8], at: usize) -> (n: usize)
    ensures
        n == space_at(s@, at as int),
        at + n <= s.len() || n == 0,
{
    if at >= s.len() {
        return 0;
    }
    let a = s[at];
    if a == 0x20 || (0x09 <= a && a <= 0x0d) {
        return 1;
    }
    if s.len() - at < 2 {
        return 0;
    }
    let b = s[at + 1];
    if a == 0xc2 && (b == 0x85 || b == 0xa0) {
        return 2;
    }
    if s.len() - at < 3 {
        return 0;
    }
    let c = s[at + 2];
    if (a == 0xe1 && b == 0x9a && c == 0x80) || (a == 0xe2 && b == 0x80 && ((0x80 <= c && c
        <= 0x8a) || c == 0xa8 || c == 0xa9 || c == 0xaf)) || (a == 0xe2 && b == 0x81 && c == 0x9f)
        || (a == 0xe3 && b == 0x80 && c == 0x80) {
        return 3;
    }
    0
}

/// Says how many bytes the white-space character takes that ends just
/// before `to` and starts no earlier than `from`.
pub fn space_len_before(s: &[u8], from: usize, to: usize) -> (n: usize)
    ensures
        n == space_before(s@, from as int, to as int),
        n == 0 || from + n <= to,
{
    if to > s.len() || from >= to {
        return 0;
    }
    let c = s[to - 1];
    if c == 0x20 || (0x09 <= c && c <= 0x0d) {
        return 1;
    }
    if to - from < 2 {
        return 0;
    }
    let b = s[to - 2];
    if b == 0xc2 && (c == 0x85 || c == 0xa0) {
        return 2;
    }
    if to - from < 3 {
        return 0;
    }
    let a = s[to - 3];
    if (a == 0xe1 && b == 0x9a && c == 0x80) || (a == 0xe2 && b == 0x80 && ((0x80 <= c && c
        <= 0x8a) || c == 0xa8 || c == 0xa9 || c == 0xaf)) || (a == 0xe2 && b == 0x81 && c == 0x9f)
        || (a == 0xe3 && b == 0x80 && c == 0x80) {
        return 3;
    }
    0
}

/// Finds what is left of `s` once the white space at both ends is set
/// aside.
pub fn trim_range(s: &[u8]) -> (r: (usize, usize))
    ensures
        r.0 == trimmed_from(s@),
        r.1 == trimmed_to(s@),
        r.0 <= r.1 <= s.len(),
{
    let mut from: usize = 0;
    let mut n: usize = space_len_at(s, from);
    while n > 0
        invariant
            from <= s.len(),
            n == space_at(s@, from as int),
            n == 0 || from + n <= s.len(),
            skip_front(s@, 0) == skip_front(s@, from as int),
        decreases s.len() - from,
    {
        from += n;
        n = space_len_at(s, from);
    }
    let mut to: usize = s.len();
    let mut m: usize = space_len_before(s, from, to);
    while m > 0
        invariant
            from <= to <= s.len(),
            from == trimmed_from(s@),
            m == space_before(s@, from as int, to as int),
            m == 0 || from + m <= to,
            skip_back(s@, from as int, s@.len() as int) == skip_back(
                s@,
                from as int,
                to as int,
            ),
        decreases to - from,
    {
        to -= m;
        m = space_len_before(s, from, to);
    }
    (from, to)
}

/// Reads the PID that the content of a PID file holds.
pub fn parse_pid(content: &[u8]) -> (pid: Option<u32>)
    ensures
        pid == pid_of(content@),
{
    let (from, to) = trim_range(content);
    let ghost text = content@.subrange(from as int, to as int);
    let start: usize = if from < to && content[from] == 43 {
        from + 1
    } else {
        from
    };
    let ghost digits = content@.subrange(start as int, to as int);
    proof {
        assert(text == trimmed(content@));
        if from < to && content@[from as int] == 43 {
            assert(text[0] == 43);
            assert(digits =~= text.drop_first());
        } else {
            assert(digits =~= text);
        }
    }
    if start == to {
        return None;
    }
    let mut value: u64 = 0;
    let mut i: usize = start;
    while i < to
        invariant
            start <= i <= to <= content.len(),
            start < to,
            digits == content@.subrange(start as int, to as int),
            text == trimmed(content@),
            digits == (if text.len() > 0 && text[0] == 43 {
                text.drop_first()
            } else {
                text
            }),
            all_digits(digits.take(i - start)),
            value == decimal_value(digits.take(i - start)),
            value <= u32::MAX,
        decreases to - i,
    {
        let b = content[i];
        if b < 48 || b > 57 {
            proof {
                assert(digits[i - start] == b);
                assert(!is_digit(digits[i - start]));
                assert(pid_of_digits(text) is None);
            }
            return None;
        }
        let next: u64 = value * 10 + (b - 48) as u64;
        proof {
            assert(digits.take(i - start + 1).drop_last() =~= digits.take(i - start));
            assert(digits.take(i - start + 1).last() == b);
            assert(next == decimal_value(digits.take(i - start + 1)));
            assert forall|k: int| 0 <= k < i - start + 1 implies is_digit(
                #[trigger] digits.take(i - start + 1)[k],
            ) by {
                if k < i - start {
                    assert(digits.take(i - start)[k] == digits.take(i - start + 1)[k]);
                }
            }
        }
        if next > 0xffff_ffff {
            proof {
                lemma_value_grows(digits, i - start + 1);
                assert(pid_of_digits(text) is None);
            }
            return None;
        }
        value = next;
        i += 1;
    }
    proof {
        assert(digits.take(to - start) =~= digits);
    }
    Some(value as u32)
}

} // verus!
