//! The base-58 alphabet that text addresses are written in, and ASCII case
//! folding on single bytes.

use vstd::prelude::*;

verus! {

/// The alphabet, in the order of its digits' values: the ASCII digits and
/// letters without `0`, `O`, `I` and `l`.
pub open spec fn base58_alphabet() -> Seq<char> {
    "123456789ABCDEFGHJKLMNPQRSTUVWXYZabcdefghijkmnopqrstuvwxyz"@
}

/// Whether `c` is one of the 58 characters of the alphabet.
pub open spec fn is_base58_char(c: char) -> bool {
    base58_alphabet().contains(c)
}

/// Whether the byte `b` is the ASCII code of a character of the alphabet.
pub open spec fn is_base58_byte(b: u8) -> bool {
    is_base58_char(b as char)
}

/// Position of `c` in the alphabet, for the characters that it holds.
spec fn alphabet_index(c: char) -> int {
    if '1' <= c <= '9' {
        c as int - '1' as int
    } else if 'A' <= c <= 'H' {
        9 + c as int - 'A' as int
    } else if 'J' <= c <= 'N' {
        17 + c as int - 'J' as int
    } else if 'P' <= c <= 'Z' {
        22 + c as int - 'P' as int
    } else if 'a' <= c <= 'k' {
        33 + c as int - 'a' as int
    } else {
        44 + c as int - 'm' as int
    }
}

/// The alphabet is the digits `1` to `9`, the upper-case letters without `I`
/// and `O`, and the lower-case letters without `l`.
pub proof fn lemma_base58_ranges(c: char)
    ensures
        is_base58_char(c) <==> ('1' <= c <= '9' || 'A' <= c <= 'H' || 'J' <= c <= 'N' || 'P' <= c
            <= 'Z' || 'a' <= c <= 'k' || 'm' <= c <= 'z'),
{
    reveal_strlit("123456789ABCDEFGHJKLMNPQRSTUVWXYZabcdefghijkmnopqrstuvwxyz");
    let s = base58_alphabet();
    if '1' <= c <= '9' || 'A' <= c <= 'H' || 'J' <= c <= 'N' || 'P' <= c <= 'Z' || 'a' <= c <= 'k'
        || 'm' <= c <= 'z' {
        assert(s[alphabet_index(c)] == c);
    }
}

/// Tells whether `c` belongs to the base-58 alphabet.
pub fn is_base58(c: char) -> (r: bool)
    ensures
        r == is_base58_char(c),
{
    proof {
        lemma_base58_ranges(c);
    }
    ('1' <= c && c <= '9') || ('A' <= c && c <= 'H') || ('J' <= c && c <= 'N') || ('P' <= c && c
        <= 'Z') || ('a' <= c && c <= 'k') || ('m' <= c && c <= 'z')
}

/// The byte `b` with an ASCII upper-case letter replaced by its lower-case
/// form; every other byte is left as it is.
pub open spec fn ascii_lower(b: u8) -> u8 {
    if 'A' as u8 <= b && b <= 'Z' as u8 {
        (b + 32) as u8
    } else {
        b
    }
}

/// Equality of two bytes up to the case of ASCII letters.
pub open spec fn eq_ignore_case(a: u8, b: u8) -> bool {
    ascii_lower(a) == ascii_lower(b)
}

/// `u8::eq_ignore_ascii_case` of the standard library compares the two bytes
/// after mapping the ASCII letters `A` to `Z` to `a` to `z`; all other bytes
/// stay as they are.
pub assume_specification[ u8::eq_ignore_ascii_case ](a: &u8, b: &u8) -> (r: bool)
    ensures
        r == eq_ignore_case(*a, *b),
;

} // verus!
