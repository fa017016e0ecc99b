//! The configuration of a search and the checks that admit it: the pattern's
//! length and alphabet, and the number of worker threads.

use vstd::prelude::*;
use vstd::string::StrSliceExecFns;
use crate::alphabet::{is_base58, is_base58_byte, is_base58_char, lemma_base58_ranges};
use crate::matcher::{matches_pattern, pattern_matches, MatchType};

verus! {

/// The longest pattern that is accepted, in bytes: shorter than an address,
/// and longer than any pattern that a search could hope to find.
pub const CHAR_LIMIT: usize = 18;

/// Why a configuration is refused.
#[derive(Clone, Copy, Debug, PartialEq, Eq, Structural)]
pub enum ConfigError {
    /// The pattern is empty or takes more than `CHAR_LIMIT` bytes.
    InvalidPatternLength,
    /// The pattern holds `character`, which the alphabet does not have.
    InvalidPatternCharacter { character: char },
    /// The thread count is not a number, or is zero.
    InvalidThreadCount,
    /// More threads are asked for than the machine runs in parallel.
    InsufficientHardwareParallelism { requested: usize, available: usize },
}

/// Whether every character of `s` belongs to the alphabet.
pub open spec fn all_base58(s: Seq<char>) -> bool {
    forall|i: int| 0 <= i < s.len() ==> is_base58_char(#[trigger] s[i])
}

/// Whether `c` is the first character of `s` that the alphabet does not
/// have.
pub open spec fn first_foreign_char(s: Seq<char>, c: char) -> bool {
    exists|i: int|
        0 <= i < s.len() && #[trigger] s[i] == c && !is_base58_char(c) && all_base58(s.take(i))
}

/// The number of bytes that `s` takes as text.
pub open spec fn byte_len(s: Seq<char>) -> nat {
    vstd::utf8::encode_utf8(s).len()
}

/// A pattern that passes `validate_find`: between one and `CHAR_LIMIT`
/// characters, each of the alphabet.
pub open spec fn admissible_pattern(s: Seq<char>) -> bool {
    1 <= s.len() <= CHAR_LIMIT && all_base58(s)
}

/// The empty text is the only one that takes no bytes.
pub proof fn lemma_empty_text_has_no_bytes(s: Seq<char>)
    ensures
        byte_len(s) == 0 <==> s.len() == 0,
{
    if s.len() > 0 {
        assert(vstd::utf8::encode_scalar(s[0] as u32).len() >= 1);
    }
}

/// A text written in the alphabet takes one byte for each character.
pub proof fn lemma_base58_text_is_ascii(s: Seq<char>)
    requires
        all_base58(s),
    ensures
        byte_len(s) == s.len(),
        forall|i: int| 0 <= i < s.len() ==> #[trigger] vstd::utf8::encode_utf8(s)[i] == s[i] as u8,
{
    assert(vstd::utf8::is_ascii_chars(s)) by {
        assert forall|i: int| 0 <= i < s.len() implies '\0' <= #[trigger] s[i] <= '\u{7f}' by {
            lemma_base58_ranges(s[i]);
        }
    }
    vstd::utf8::is_ascii_chars_encode_utf8(s);
}

/// Whether a pattern is admissible can be told from its bytes as well as
/// from its characters: a pattern of the alphabet has as many of the one as
/// of the other. So a pattern of `CHAR_LIMIT` characters of the alphabet is
/// admissible, a longer one is not, the empty one is not, and one with a
/// character that the alphabet does not have is not.
pub proof fn lemma_admissible_pattern(s: Seq<char>)
    ensures
        admissible_pattern(s) <==> 1 <= byte_len(s) <= CHAR_LIMIT && all_base58(s),
        s.len() == 0 ==> !admissible_pattern(s),
        s.len() > CHAR_LIMIT ==> !admissible_pattern(s),
        (exists|i: int| 0 <= i < s.len() && !is_base58_char(#[trigger] s[i])) ==> !admissible_pattern(
            s,
        ),
{
    if all_base58(s) {
        lemma_base58_text_is_ascii(s);
    }
}

/// A text has one first character outside the alphabet at most.
pub proof fn lemma_first_foreign_char_unique(s: Seq<char>, c: char, d: char)
    requires
        first_foreign_char(s, c),
        first_foreign_char(s, d),
    ensures
        c == d,
        !all_base58(s),
{
    let i = choose|i: int|
        0 <= i < s.len() && #[trigger] s[i] == c && !is_base58_char(c) && all_base58(s.take(i));
    let j = choose|j: int|
        0 <= j < s.len() && #[trigger] s[j] == d && !is_base58_char(d) && all_base58(s.take(j));
    if i < j {
        assert(s.take(j)[i] == s[i]);
    }
    if j < i {
        assert(s.take(i)[j] == s[j]);
    }
}

/// Checks a pattern as it was typed: it must take between one and
/// `CHAR_LIMIT` bytes, and each of its characters must belong to the
/// alphabet. The length is checked first. An accepted pattern is handed back
/// as it is.
pub fn validate_find(s: &str) -> (r: Result<String, ConfigError>)
    ensures
        r is Ok <==> admissible_pattern(s@),
        match r {
            Ok(pattern) => pattern@ == s@ && 1 <= byte_len(s@) <= CHAR_LIMIT && all_base58(s@),
            Err(ConfigError::InvalidPatternLength) => s@.len() == 0 || byte_len(s@) > CHAR_LIMIT,
            Err(ConfigError::InvalidPatternCharacter { character }) => 1 <= byte_len(s@)
                <= CHAR_LIMIT && first_foreign_char(s@, character),
            Err(_) => false,
        },
{
    proof {
        lemma_admissible_pattern(s@);
        lemma_empty_text_has_no_bytes(s@);
    }
    let length = s.as_bytes().len();
    if length == 0 || length > CHAR_LIMIT {
        return Err(ConfigError::InvalidPatternLength);
    }
    for ch in it: s.chars()
        invariant
            it.seq() == s@,
            1 <= byte_len(s@) <= CHAR_LIMIT,
            forall|j: int| 0 <= j < it.index() ==> is_base58_char(#[trigger] s@[j]),
    {
        if !is_base58(ch) {
            assert(all_base58(s@.take(it.index())));
            return Err(ConfigError::InvalidPatternCharacter { character: ch });
        }
    }
    Ok(s.to_owned())
}

/// Whether `c` is a decimal digit.
pub open spec fn is_digit(c: char) -> bool {
    '0' <= c <= '9'
}

/// The number that a run of decimal digits denotes; the empty run denotes
/// zero.
pub open spec fn decimal_value(digits: Seq<char>) -> nat
    decreases digits.len(),
{
    if digits.len() == 0 {
        0
    } else {
        (10 * decimal_value(digits.drop_last()) + (digits.last() as int - '0' as int)) as nat
    }
}

/// The number of characters that the sign of a count takes: one for a
/// leading `+`, else none.
pub open spec fn sign_len(s: Seq<char>) -> int {
    if s.len() > 0 && s[0] == '+' {
        1
    } else {
        0
    }
}

/// The digits of a count as it is written: the text after the sign.
pub open spec fn unsigned_part(s: Seq<char>) -> Seq<char> {
    s.subrange(sign_len(s), s.len() as int)
}

/// The count that the text `s` denotes: one or more decimal digits, with an
/// optional `+` before them, whose value fits the machine word. Any other
/// text denotes no count.
pub open spec fn parsed_count(s: Seq<char>) -> Option<usize> {
    let digits = unsigned_part(s);
    if digits.len() > 0 && (forall|i: int| 0 <= i < digits.len() ==> is_digit(#[trigger] digits[i]))
        && decimal_value(digits) <= usize::MAX {
        Some(decimal_value(digits) as usize)
    } else {
        None
    }
}

/// The first `n` digits of a run denote no more than the whole run.
proof fn lemma_decimal_value_grows(digits: Seq<char>, n: int)
    requires
        0 <= n <= digits.len(),
        forall|i: int| 0 <= i < digits.len() ==> is_digit(#[trigger] digits[i]),
    ensures
        decimal_value(digits.take(n)) <= decimal_value(digits),
    decreases digits.len() - n,
{
    if n == digits.len() {
        assert(digits.take(n) =~= digits);
    } else {
        lemma_decimal_value_grows(digits, n + 1);
        assert(digits.take(n + 1).drop_last() =~= digits.take(n));
    }
}

/// Reads a count from its decimal text, as the standard library reads an
/// unsigned integer: digit by digit, giving up at the first character that
/// is no digit and as soon as the value leaves the machine word.
pub fn parse_count(s: &str) -> (r: Option<usize>)
    ensures
        r == parsed_count(s@),
{
    let mut value: usize = 0;
    let mut at_start = true;
    let mut any_digit = false;
    for ch in it: s.chars()
        invariant
            it.seq() == s@,
            at_start == (it.index() == 0),
            any_digit == (it.index() > sign_len(s@)),
            it.index() < sign_len(s@) ==> value == 0,
            it.index() >= sign_len(s@) ==> value == decimal_value(
                s@.subrange(sign_len(s@), it.index()),
            ),
            forall|j: int| sign_len(s@) <= j < it.index() ==> is_digit(#[trigger] s@[j]),
    {
        let ghost n = it.index();
        let ghost digits = unsigned_part(s@);
        if at_start && ch == '+' {
            assert(s@.subrange(1, 1) =~= Seq::<char>::empty());
        } else {
            if !('0' <= ch && ch <= '9') {
                assert(digits[n - sign_len(s@)] == ch);
                return None;
            }
            let digit = (ch as u32 - '0' as u32) as usize;
            let ghost consumed = s@.subrange(sign_len(s@), n + 1);
            assert(consumed.drop_last() =~= s@.subrange(sign_len(s@), n));
            assert(decimal_value(consumed) == 10 * value + digit);
            let next = match value.checked_mul(10) {
                Some(tens) => tens.checked_add(digit),
                None => None,
            };
            match next {
                Some(v) => {
                    value = v;
                    any_digit = true;
                },
                None => {
                    proof {
                        // the digits read so far are already too many
                        if forall|i: int| 0 <= i < digits.len() ==> is_digit(#[trigger] digits[i]) {
                            lemma_decimal_value_grows(digits, n + 1 - sign_len(s@));
                            assert(digits.take(n + 1 - sign_len(s@)) =~= consumed);
                        }
                    }
                    return None;
                },
            }
        }
        at_start = false;
    }

    if any_digit {
        Some(value)
    } else {
        None
    }
}

/// What is decided of a request for `requested` worker threads on a machine
/// that runs `available` threads in parallel: zero is no thread count, and
/// more than the machine has is refused.
pub open spec fn thread_count_verdict(requested: usize, available: usize) -> Result<
    usize,
    ConfigError,
> {
    if requested == 0 {
        Err(ConfigError::InvalidThreadCount)
    } else if requested > available {
        Err(ConfigError::InsufficientHardwareParallelism { requested, available })
    } else {
        Ok(requested)
    }
}

/// Checks a thread count against the parallelism of the machine.
pub fn check_thread_count(threads: usize, available: usize) -> (r: Result<usize, ConfigError>)
    ensures
        r == thread_count_verdict(threads, available),
{
    if threads == 0 {
        return Err(ConfigError::InvalidThreadCount);
    }
    if threads > available {
        return Err(
            ConfigError::InsufficientHardwareParallelism { requested: threads, available },
        );
    }
    Ok(threads)
}

/// Checks a thread count as it was typed, on a machine that runs `available`
/// threads in parallel: the text must denote a count, the count must not be
/// zero, and it must not exceed `available`.
pub fn validate_threads(s: &str, available: usize) -> (r: Result<usize, ConfigError>)
    ensures
        r == match parsed_count(s@) {
            Some(threads) => thread_count_verdict(threads, available),
            None => Err(ConfigError::InvalidThreadCount),
        },
{
    match parse_count(s) {
        Some(threads) => check_thread_count(threads, available),
        None => Err(ConfigError::InvalidThreadCount),
    }
}

/// What a search looks for and how it compares.
#[derive(Debug, PartialEq, Eq)]
pub struct MatchConfig {
    /// The pattern, as the bytes of its text.
    pub pattern: Vec<u8>,
    /// The end of the address at which the pattern is looked for.
    pub match_mode: MatchType,
    /// Whether letters must agree in case.
    pub case_sensitive: bool,
    /// Whether lookalike characters are accepted. The flag is kept as it was
    /// given; a case-sensitive run does not use it.
    pub flexible_chars: bool,
}

impl Clone for MatchConfig {
    fn clone(&self) -> (copy: Self)
        ensures
            copy.pattern@ == self.pattern@,
            copy.match_mode == self.match_mode,
            copy.case_sensitive == self.case_sensitive,
            copy.flexible_chars == self.flexible_chars,
    {
        MatchConfig {
            pattern: self.pattern.clone(),
            match_mode: self.match_mode,
            case_sensitive: self.case_sensitive,
            flexible_chars: self.flexible_chars,
        }
    }
}

impl MatchConfig {
    /// A configuration that was admitted: its pattern has between one and
    /// `CHAR_LIMIT` bytes, each of the alphabet.
    pub open spec fn well_formed(&self) -> bool {
        &&& 1 <= self.pattern@.len() <= CHAR_LIMIT
        &&& forall|i: int| 0 <= i < self.pattern@.len() ==> is_base58_byte(#[trigger] self.pattern@[i])
    }

    /// Whether the address `address` satisfies this configuration.
    pub open spec fn accepts(&self, address: Seq<u8>) -> bool {
        pattern_matches(
            address,
            self.pattern@,
            self.match_mode,
            self.case_sensitive,
            self.flexible_chars,
        )
    }

    /// Admits a configuration. The pattern is checked as `validate_find`
    /// checks it.
    pub fn new(
        pattern: &str,
        match_mode: MatchType,
        case_sensitive: bool,
        flexible_chars: bool,
    ) -> (r: Result<MatchConfig, ConfigError>)
        ensures
            match r {
                Ok(config) => {
                    &&& config.well_formed()
                    &&& 1 <= pattern@.len() <= CHAR_LIMIT
                    &&& all_base58(pattern@)
                    &&& config.pattern@ == Seq::new(pattern@.len(), |i: int| pattern@[i] as u8)
                    &&& config.match_mode == match_mode
                    &&& config.case_sensitive == case_sensitive
                    &&& config.flexible_chars == flexible_chars
                },
                Err(ConfigError::InvalidPatternLength) => pattern@.len() == 0 || byte_len(pattern@)
                    > CHAR_LIMIT,
                Err(ConfigError::InvalidPatternCharacter { character }) => 1 <= byte_len(
                    pattern@,
                ) <= CHAR_LIMIT && first_foreign_char(pattern@, character),
                Err(_) => false,
            },
    {
        match validate_find(pattern) {
            Ok(_) => {},
            Err(e) => {
                return Err(e);
            },
        }
        let bytes = pattern.as_bytes_vec();
        proof {
            lemma_base58_text_is_ascii(pattern@);
            assert forall|i: int| 0 <= i < bytes@.len() implies is_base58_byte(
                #[trigger] bytes@[i],
            ) by {
                lemma_base58_ranges(pattern@[i]);
            }
        }
        Ok(MatchConfig { pattern: bytes, match_mode, case_sensitive, flexible_chars })
    }

    /// Tells whether `address` satisfies this configuration.
    pub fn matches(&self, address: &[u8]) -> (r: bool)
        ensures
            r == self.accepts(address@),
    {
        matches_pattern(
            address,
            self.pattern.as_slice(),
            self.match_mode,
            self.case_sensitive,
            self.flexible_chars,
        )
    }
}

} // verus!
