//! The pattern matcher: whether an address begins or ends with a pattern,
//! compared byte by byte under one of three rules.

use vstd::prelude::*;
use crate::alphabet::{eq_ignore_case, is_base58_byte};
use crate::confusable::{flexible_match, matches_flexible};

verus! {

/// Where in the address the pattern is looked for.
#[derive(Clone, Copy, Debug, PartialEq, Eq, Structural)]
pub enum MatchType {
    /// At the start of the address.
    Prefix,
    /// At the end of the address.
    Suffix,
    /// At the start or at the end.
    Either,
}

/// Whether the address byte `c` satisfies the pattern byte `target`: by
/// equality when `case_sensitive` is set; else by flexible matching when
/// `flexible` is set; else by equality up to ASCII case.
pub open spec fn char_matches(c: u8, target: u8, case_sensitive: bool, flexible: bool) -> bool {
    if case_sensitive {
        c == target
    } else if flexible {
        flexible_match(c, target)
    } else {
        eq_ignore_case(c, target)
    }
}

/// Whether `window` has the length of `pattern` and satisfies it byte for
/// byte.
pub open spec fn window_matches(
    window: Seq<u8>,
    pattern: Seq<u8>,
    case_sensitive: bool,
    flexible: bool,
) -> bool {
    &&& window.len() == pattern.len()
    &&& forall|i: int|
        0 <= i < pattern.len() ==> char_matches(
            window[i],
            #[trigger] pattern[i],
            case_sensitive,
            flexible,
        )
}

/// Whether the `pattern.len()` bytes of `address` from index `start` on exist
/// and satisfy `pattern`.
pub open spec fn matches_at(
    address: Seq<u8>,
    pattern: Seq<u8>,
    start: int,
    case_sensitive: bool,
    flexible: bool,
) -> bool {
    &&& 0 <= start
    &&& start + pattern.len() <= address.len()
    &&& window_matches(
        address.subrange(start, start + pattern.len()),
        pattern,
        case_sensitive,
        flexible,
    )
}

/// Whether `address` begins with `pattern`. A pattern longer than the address
/// is never matched.
pub open spec fn prefix_matches(
    address: Seq<u8>,
    pattern: Seq<u8>,
    case_sensitive: bool,
    flexible: bool,
) -> bool {
    matches_at(address, pattern, 0, case_sensitive, flexible)
}

/// Whether `address` ends with `pattern`. A pattern longer than the address
/// is never matched.
pub open spec fn suffix_matches(
    address: Seq<u8>,
    pattern: Seq<u8>,
    case_sensitive: bool,
    flexible: bool,
) -> bool {
    matches_at(address, pattern, address.len() - pattern.len(), case_sensitive, flexible)
}

/// The flexibility that a run uses: the stored flag, unless the run is case
/// sensitive, which switches flexible matching off.
pub open spec fn effective_flexible(case_sensitive: bool, flexible_chars: bool) -> bool {
    flexible_chars && !case_sensitive
}

/// Whether `address` satisfies `pattern` under the given options.
pub open spec fn pattern_matches(
    address: Seq<u8>,
    pattern: Seq<u8>,
    match_type: MatchType,
    case_sensitive: bool,
    flexible_chars: bool,
) -> bool {
    let flexible = effective_flexible(case_sensitive, flexible_chars);
    match match_type {
        MatchType::Prefix => prefix_matches(address, pattern, case_sensitive, flexible),
        MatchType::Suffix => suffix_matches(address, pattern, case_sensitive, flexible),
        MatchType::Either => prefix_matches(address, pattern, case_sensitive, flexible)
            || suffix_matches(address, pattern, case_sensitive, flexible),
    }
}

/// Compares one address byte with one pattern byte.
#[inline]
pub fn matches_char(c: u8, target: u8, case_sensitive: bool, flexible: bool) -> (r: bool)
    ensures
        r == char_matches(c, target, case_sensitive, flexible),
{
    if case_sensitive {
        c == target
    } else if flexible {
        matches_flexible(c, target)
    } else {
        c.eq_ignore_ascii_case(&target)
    }
}

/// Compares the bytes of `pubkey` from index `start` on with `pattern`, from
/// left to right, and stops at the first byte that does not match. A window
/// that does not fit into `pubkey` is no match.
pub fn matches_window(
    pubkey: &[u8],
    pattern: &[u8],
    start: usize,
    case_sensitive: bool,
    flexible: bool,
) -> (r: bool)
    ensures
        r == matches_at(pubkey@, pattern@, start as int, case_sensitive, flexible),
{
    let pubkey_len = pubkey.len();
    let pattern_len = pattern.len();
    if start > pubkey_len || pattern_len > pubkey_len - start {
        return false;
    }
    let ghost window = pubkey@.subrange(start as int, start + pattern_len);
    let mut i: usize = 0;
    while i < pattern_len
        invariant
            i <= pattern_len,
            pattern_len == pattern@.len(),
            pubkey_len == pubkey@.len(),
            start + pattern_len <= pubkey_len,
            window == pubkey@.subrange(start as int, start + pattern_len),
            forall|j: int|
                0 <= j < i ==> char_matches(
                    window[j],
                    #[trigger] pattern@[j],
                    case_sensitive,
                    flexible,
                ),
        decreases pattern_len - i,
    {
        if !matches_char(pubkey[start + i], pattern[i], case_sensitive, flexible) {
            return false;
        }
        i += 1;
    }
    true
}

/// Tells whether the address `pubkey` satisfies `pattern`: at its start, at
/// its end, or at either, as `match_type` says. With `Either` the start is
/// tried first and the end only if the start fails. A case-sensitive run
/// never uses flexible matching, whatever `flexible_chars` holds. A pattern
/// longer than the address is no match.
pub fn matches_pattern(
    pubkey: &[u8],
    pattern: &[u8],
    match_type: MatchType,
    case_sensitive: bool,
    flexible_chars: bool,
) -> (r: bool)
    ensures
        r == pattern_matches(pubkey@, pattern@, match_type, case_sensitive, flexible_chars),
{
    let pubkey_len = pubkey.len();
    let pattern_len = pattern.len();
    if pattern_len > pubkey_len {
        return false;
    }
    let flexible_chars = if case_sensitive {
        false
    } else {
        flexible_chars
    };
    let start_idx = pubkey_len - pattern_len;
    match match_type {
        MatchType::Prefix => matches_window(pubkey, pattern, 0, case_sensitive, flexible_chars),
        MatchType::Suffix => matches_window(
            pubkey,
            pattern,
            start_idx,
            case_sensitive,
            flexible_chars,
        ),
        MatchType::Either => {
            if matches_window(pubkey, pattern, 0, case_sensitive, flexible_chars) {
                return true;
            }
            matches_window(pubkey, pattern, start_idx, case_sensitive, flexible_chars)
        },
    }
}

/// A prefix search on an address that is at least as long as the pattern
/// succeeds if and only if each of the first `pattern.len()` bytes of the
/// address satisfies the pattern byte at its index.
pub proof fn lemma_prefix_compares_leading_bytes(
    address: Seq<u8>,
    pattern: Seq<u8>,
    case_sensitive: bool,
    flexible_chars: bool,
)
    requires
        pattern.len() <= address.len(),
    ensures
        pattern_matches(address, pattern, MatchType::Prefix, case_sensitive, flexible_chars)
            <==> forall|i: int|
            0 <= i < pattern.len() ==> char_matches(
                address[i],
                #[trigger] pattern[i],
                case_sensitive,
                effective_flexible(case_sensitive, flexible_chars),
            ),
{
    let window = address.subrange(0, pattern.len() as int);
    assert forall|i: int| 0 <= i < pattern.len() implies window[i] == address[i] by {}
}

/// A suffix search on an address that is at least as long as the pattern
/// succeeds if and only if each of the last `pattern.len()` bytes of the
/// address satisfies the pattern byte at its index.
pub proof fn lemma_suffix_compares_trailing_bytes(
    address: Seq<u8>,
    pattern: Seq<u8>,
    case_sensitive: bool,
    flexible_chars: bool,
)
    requires
        pattern.len() <= address.len(),
    ensures
        pattern_matches(address, pattern, MatchType::Suffix, case_sensitive, flexible_chars)
            <==> forall|i: int|
            0 <= i < pattern.len() ==> char_matches(
                address[address.len() - pattern.len() + i],
                #[trigger] pattern[i],
                case_sensitive,
                effective_flexible(case_sensitive, flexible_chars),
            ),
{
    let start = address.len() - pattern.len();
    let window = address.subrange(start, start + pattern.len());
    assert forall|i: int| 0 <= i < pattern.len() implies window[i] == address[start + i] by {}
}

/// A search at either end succeeds if and only if the prefix search or the
/// suffix search with the same options succeeds.
pub proof fn lemma_either_is_prefix_or_suffix(
    address: Seq<u8>,
    pattern: Seq<u8>,
    case_sensitive: bool,
    flexible_chars: bool,
)
    ensures
        pattern_matches(address, pattern, MatchType::Either, case_sensitive, flexible_chars) <==> (
        pattern_matches(address, pattern, MatchType::Prefix, case_sensitive, flexible_chars)
            || pattern_matches(
            address,
            pattern,
            MatchType::Suffix,
            case_sensitive,
            flexible_chars,
        )),
{
}

/// A case-sensitive run gives the same answer whether the flexible flag is
/// stored as set or as cleared.
pub proof fn lemma_case_sensitive_ignores_flexible(
    address: Seq<u8>,
    pattern: Seq<u8>,
    match_type: MatchType,
)
    ensures
        pattern_matches(address, pattern, match_type, true, true) == pattern_matches(
            address,
            pattern,
            match_type,
            true,
            false,
        ),
{
}

/// Under each of the three rules a byte satisfies itself.
pub proof fn lemma_char_matches_reflexive(c: u8, case_sensitive: bool, flexible: bool)
    ensures
        char_matches(c, c, case_sensitive, flexible),
{
}

/// A case-sensitive search is a search for the pattern as it is written: at
/// the start it asks whether the pattern is a prefix of the address, at the
/// end whether it is a suffix of it.
pub proof fn lemma_case_sensitive_is_exact(
    address: Seq<u8>,
    pattern: Seq<u8>,
    flexible_chars: bool,
)
    ensures
        pattern_matches(address, pattern, MatchType::Prefix, true, flexible_chars)
            <==> pattern.is_prefix_of(address),
        pattern_matches(address, pattern, MatchType::Suffix, true, flexible_chars)
            <==> pattern.is_suffix_of(address),
{
    if pattern.len() <= address.len() {
        let head = address.subrange(0, pattern.len() as int);
        let tail = address.subrange(address.len() - pattern.len(), address.len() as int);
        if window_matches(head, pattern, true, false) {
            assert(head =~= pattern);
        }
        if window_matches(tail, pattern, true, false) {
            assert(tail =~= pattern);
        }
    }
}

/// A pattern that is longer than the address is matched at neither end.
pub proof fn lemma_longer_pattern_never_matches(
    address: Seq<u8>,
    pattern: Seq<u8>,
    match_type: MatchType,
    case_sensitive: bool,
    flexible_chars: bool,
)
    requires
        pattern.len() > address.len(),
    ensures
        !pattern_matches(address, pattern, match_type, case_sensitive, flexible_chars),
{
}

/// On an address byte of the alphabet each rule accepts what the stricter
/// one accepts: equal bytes are equal up to case, and bytes equal up to case
/// match flexibly.
pub proof fn lemma_char_rules_widen(c: u8, target: u8)
    requires
        is_base58_byte(c),
    ensures
        char_matches(c, target, true, false) ==> char_matches(c, target, false, false),
        char_matches(c, target, false, false) ==> char_matches(c, target, false, true),
{
}

/// On an address written in the alphabet, a pattern found by a
/// case-sensitive search is found by a case-insensitive one, and a pattern
/// found by a case-insensitive search is found by a flexible one.
pub proof fn lemma_rules_widen(
    address: Seq<u8>,
    pattern: Seq<u8>,
    match_type: MatchType,
    flexible_chars: bool,
)
    requires
        forall|i: int| 0 <= i < address.len() ==> is_base58_byte(#[trigger] address[i]),
    ensures
        pattern_matches(address, pattern, match_type, true, flexible_chars) ==> pattern_matches(
            address,
            pattern,
            match_type,
            false,
            false,
        ),
        pattern_matches(address, pattern, match_type, false, false) ==> pattern_matches(
            address,
            pattern,
            match_type,
            false,
            true,
        ),
{
    if pattern.len() <= address.len() {
        let tail_start = address.len() - pattern.len();
        let head = address.subrange(0, pattern.len() as int);
        let tail = address.subrange(tail_start, address.len() as int);
        assert forall|i: int| 0 <= i < pattern.len() implies (char_matches(
            head[i],
            #[trigger] pattern[i],
            true,
            false,
        ) ==> char_matches(head[i], pattern[i], false, false)) && (char_matches(
            head[i],
            pattern[i],
            false,
            false,
        ) ==> char_matches(head[i], pattern[i], false, true)) && (char_matches(
            tail[i],
            pattern[i],
            true,
            false,
        ) ==> char_matches(tail[i], pattern[i], false, false)) && (char_matches(
            tail[i],
            pattern[i],
            false,
            false,
        ) ==> char_matches(tail[i], pattern[i], false, true)) by {
            lemma_char_rules_widen(head[i], pattern[i]);
            lemma_char_rules_widen(tail[i], pattern[i]);
        }
    }
}

} // verus!
