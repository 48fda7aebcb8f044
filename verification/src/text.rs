//! Byte-level text helpers: matching without regard to ASCII case and
//! taking the domain from an address.

use vstd::prelude::*;
use vstd::utf8::encode_utf8;

verus! {

/// The bytes of a text, as `as_bytes` hands them out.
pub open spec fn text_bytes(text: Seq<char>) -> Seq<u8> {
    encode_utf8(text)
}

/// The texts of a list of strings.
pub open spec fn texts(list: Seq<String>) -> Seq<Seq<char>> {
    Seq::new(list.len(), |i: int| list[i]@)
}

/// The byte `@`.
pub const AT_SIGN: u8 = 64;

/// The byte `.`.
pub const DOT: u8 = 46;

/// The lower-case form of an ASCII letter; any other byte is left as it is.
pub open spec fn to_lower(b: u8) -> u8 {
    if 65 <= b <= 90 {
        (b + 32) as u8
    } else {
        b
    }
}

/// `s` with every ASCII letter in lower case.
pub open spec fn lowered(s: Seq<u8>) -> Seq<u8> {
    Seq::new(s.len(), |i: int| to_lower(s[i]))
}

/// Whether `a` and `b` are equal once ASCII case is set aside.
pub open spec fn same_ignoring_case(a: Seq<u8>, b: Seq<u8>) -> bool {
    lowered(a) == lowered(b)
}

/// Whether `needle` stands in `hay` at position `at`, ASCII case set aside.
pub open spec fn occurs_at(hay: Seq<u8>, at: int, needle: Seq<u8>) -> bool {
    &&& 0 <= at
    &&& at + needle.len() <= hay.len()
    &&& same_ignoring_case(hay.subrange(at, at + needle.len()), needle)
}

/// Whether `needle` stands somewhere in `hay`, ASCII case set aside.
pub open spec fn contains_ignoring_case(hay: Seq<u8>, needle: Seq<u8>) -> bool {
    exists|at: int| occurs_at(hay, at, needle)
}

/// Whether `hay` ends with `suffix`, ASCII case set aside.
pub open spec fn ends_with_ignoring_case(hay: Seq<u8>, suffix: Seq<u8>) -> bool {
    occurs_at(hay, hay.len() - suffix.len(), suffix)
}

/// Whether `at` is the position of the last `@` in `s`.
pub open spec fn is_last_at_sign(s: Seq<u8>, at: int) -> bool {
    &&& 0 <= at < s.len()
    &&& s[at] == AT_SIGN
    &&& forall|j: int| at < j < s.len() ==> s[j] != AT_SIGN
}

/// Whether `s` holds an `@`.
pub open spec fn has_at_sign(s: Seq<u8>) -> bool {
    exists|at: int| 0 <= at < s.len() && s[at] == AT_SIGN
}

/// The position of the last `@` in `s`, meaningful where `s` holds one.
pub open spec fn last_at_sign(s: Seq<u8>) -> int {
    choose|at: int| is_last_at_sign(s, at)
}

/// The domain of an address: what follows its last `@`, in lower case.
/// There is none where the address holds no `@`, or nothing before it, or
/// nothing after it.
pub open spec fn address_domain(address: Seq<u8>) -> Option<Seq<u8>> {
    if has_at_sign(address) && 0 < last_at_sign(address) < address.len() - 1 {
        Some(lowered(address.subrange(last_at_sign(address) + 1, address.len() as int)))
    } else {
        None
    }
}

/// Puts an ASCII letter in lower case.
pub fn ascii_lower(b: u8) -> (r: u8)
    ensures
        r == to_lower(b),
{
    if b >= 65 && b <= 90 {
        b + 32
    } else {
        b
    }
}

/// Says whether `needle` stands in `hay` at `at`, ASCII case set aside.
pub fn matches_at(hay: &[u8], at: usize, needle: &[u8]) -> (r: bool)
    ensures
        r == occurs_at(hay@, at as int, needle@),
{
    if at > hay.len() || needle.len() > hay.len() - at {
        return false;
    }
    let ghost window = hay@.subrange(at as int, at + needle.len());
    let mut i: usize = 0;
    while i < needle.len()
        invariant
            i <= needle.len(),
            at + needle.len() <= hay.len(),
            window == hay@.subrange(at as int, at + needle.len()),
            forall|j: int| 0 <= j < i ==> to_lower(window[j]) == to_lower(needle@[j]),
        decreases needle.len() - i,
    {
        if ascii_lower(hay[at + i]) != ascii_lower(needle[i]) {
            proof {
                assert(lowered(window)[i as int] != lowered(needle@)[i as int]);
            }
            return false;
        }
        i += 1;
    }
    proof {
        assert(lowered(window) =~= lowered(needle@));
    }
    true
}

/// Says whether `needle` stands somewhere in `hay`, ASCII case set aside.
pub fn contains_phrase(hay: &[u8], needle: &[u8]) -> (r: bool)
    ensures
        r == contains_ignoring_case(hay@, needle@),
{
    if needle.len() > hay.len() {
        return false;
    }
    let last: usize = hay.len() - needle.len();
    let mut at: usize = 0;
    loop
        invariant
            last == hay.len() - needle.len(),
            at <= last,
            forall|k: int| 0 <= k < at ==> !occurs_at(hay@, k, needle@),
        decreases last - at,
    {
        if matches_at(hay, at, needle) {
            return true;
        }
        if at == last {
            return false;
        }
        at += 1;
    }
}

/// Says whether `hay` ends with `suffix`, ASCII case set aside.
pub fn ends_with_phrase(hay: &[u8], suffix: &[u8]) -> (r: bool)
    ensures
        r == ends_with_ignoring_case(hay@, suffix@),
{
    if suffix.len() > hay.len() {
        return false;
    }
    matches_at(hay, hay.len() - suffix.len(), suffix)
}

/// Finds the last `@` of `s`.
pub fn find_last_at_sign(s: &[u8]) -> (r: Option<usize>)
    ensures
        r is Some <==> has_at_sign(s@),
        r matches Some(at) ==> at < s.len() && is_last_at_sign(s@, at as int) && at as int
            == last_at_sign(s@),
{
    let mut i: usize = s.len();
    while i > 0
        invariant
            i <= s.len(),
            forall|j: int| i <= j < s.len() ==> s@[j] != AT_SIGN,
        decreases i,
    {
        i -= 1;
        if s[i] == AT_SIGN {
            proof {
                assert(is_last_at_sign(s@, i as int));
                lemma_last_at_sign_unique(s@, i as int, last_at_sign(s@));
            }
            return Some(i);
        }
    }
    None
}

/// A text has at most one last `@`.
pub proof fn lemma_last_at_sign_unique(s: Seq<u8>, a: int, b: int)
    requires
        is_last_at_sign(s, a),
        is_last_at_sign(s, b),
    ensures
        a == b,
{
}

/// Takes the domain from an address.
pub fn domain_of(address: &[u8]) -> (r: Option<Vec<u8>>)
    ensures
        r is Some <==> address_domain(address@) is Some,
        r matches Some(domain) ==> domain@ == address_domain(address@)->0,
{
    match find_last_at_sign(address) {
        None => None,
        Some(at) => {
            if at == 0 || at + 1 >= address.len() {
                return None;
            }
            let ghost tail = address@.subrange(at + 1, address.len() as int);
            let mut domain: Vec<u8> = Vec::new();
            let mut i: usize = at + 1;
            while i < address.len()
                invariant
                    at + 1 <= i <= address.len(),
                    tail == address@.subrange(at + 1, address.len() as int),
                    domain@.len() == i - (at + 1),
                    forall|j: int| 0 <= j < domain@.len() ==> domain@[j] == to_lower(tail[j]),
                decreases address.len() - i,
            {
                domain.push(ascii_lower(address[i]));
                i += 1;
            }
            proof {
                assert(domain@ =~= lowered(tail));
            }
            Some(domain)
        },
    }
}

} // verus!
