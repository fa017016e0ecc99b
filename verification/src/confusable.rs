//! Flexible comparison of one address character with one pattern character:
//! the pattern character stands for itself, for its other case, and for the
//! digits and letters that are easily taken for it.

use vstd::prelude::*;
use crate::alphabet::{eq_ignore_case, is_base58_byte, lemma_base58_ranges};

verus! {

/// Whether the address character `c` is a digit or letter that is taken for
/// the pattern character `target` by its shape: `1` for `i` and `L`, `2` for
/// `z`, `3` for `E`, `4` for `A`, `5` for `s`, `6` for `b` and `G`, `7` for
/// `T`, `8` for `B`, `9` for `g`, and the other way round. The relation is
/// read from the pattern to the address and is not symmetric: the pattern
/// `B` accepts `6`, the pattern `6` does not accept `B`.
pub open spec fn lookalike(c: char, target: char) -> bool {
    match target {
        '1' => c == 'i' || c == 'L',
        '2' => c == 'z' || c == 'Z',
        '3' => c == 'E',
        '4' => c == 'A',
        '5' => c == 's' || c == 'S',
        '6' => c == 'b' || c == 'G',
        '7' => c == 'T',
        '8' => c == 'B',
        '9' => c == 'g',
        'a' | 'A' => c == '4',
        'b' => c == '6',
        'B' => c == '6' || c == '8',
        'e' | 'E' => c == '3',
        'g' | 'G' => c == '6' || c == '9',
        'i' | 'L' => c == '1',
        's' | 'S' => c == '5',
        't' | 'T' => c == '7',
        'z' | 'Z' => c == '2',
        _ => false,
    }
}

/// Whether the address byte `c` satisfies the pattern byte `target` under
/// flexible matching. A pattern character of the alphabet accepts itself, its
/// other case where the alphabet has it, and its lookalikes. Any other
/// pattern byte accepts the bytes equal to it up to ASCII case.
pub open spec fn flexible_match(c: u8, target: u8) -> bool {
    if is_base58_byte(target) {
        (is_base58_byte(c) && eq_ignore_case(c, target)) || lookalike(c as char, target as char)
    } else {
        eq_ignore_case(c, target)
    }
}

/// Compares the address byte `c` with the pattern byte `target` under
/// flexible matching.
pub fn matches_flexible(c: u8, target: u8) -> (r: bool)
    ensures
        r == flexible_match(c, target),
{
    proof {
        lemma_base58_ranges(c as char);
        lemma_base58_ranges(target as char);
    }
    let address_char = c as char;
    match target as char {
        '1' => matches!(address_char, '1' | 'i' | 'L'),
        '2' => matches!(address_char, '2' | 'z' | 'Z'),
        '3' => matches!(address_char, '3' | 'E'),
        '4' => matches!(address_char, '4' | 'A'),
        '5' => matches!(address_char, '5' | 's' | 'S'),
        '6' => matches!(address_char, '6' | 'b' | 'G'),
        '7' => matches!(address_char, '7' | 'T'),
        '8' => matches!(address_char, '8' | 'B'),
        '9' => matches!(address_char, '9' | 'g'),
        'a' => matches!(address_char, 'a' | 'A' | '4'),
        'b' => matches!(address_char, 'b' | 'B' | '6'),
        'c' => matches!(address_char, 'c' | 'C'),
        'd' => matches!(address_char, 'd' | 'D'),
        'e' => matches!(address_char, 'e' | 'E' | '3'),
        'f' => matches!(address_char, 'f' | 'F'),
        'g' => matches!(address_char, 'g' | 'G' | '6' | '9'),
        'h' => matches!(address_char, 'h' | 'H'),
        'i' => matches!(address_char, 'i' | '1'),
        'j' => matches!(address_char, 'j' | 'J'),
        'k' => matches!(address_char, 'k' | 'K'),
        'm' => matches!(address_char, 'm' | 'M'),
        'n' => matches!(address_char, 'n' | 'N'),
        'o' => matches!(address_char, 'o'),
        'p' => matches!(address_char, 'p' | 'P'),
        'q' => matches!(address_char, 'q' | 'Q'),
        'r' => matches!(address_char, 'r' | 'R'),
        's' => matches!(address_char, 's' | 'S' | '5'),
        't' => matches!(address_char, 't' | 'T' | '7'),
        'u' => matches!(address_char, 'u' | 'U'),
        'v' => matches!(address_char, 'v' | 'V'),
        'w' => matches!(address_char, 'w' | 'W'),
        'x' => matches!(address_char, 'x' | 'X'),
        'y' => matches!(address_char, 'y' | 'Y'),
        'z' => matches!(address_char, 'z' | 'Z' | '2'),
        'A' => matches!(address_char, 'a' | 'A' | '4'),
        'B' => matches!(address_char, 'b' | 'B' | '6' | '8'),
        'C' => matches!(address_char, 'c' | 'C'),
        'D' => matches!(address_char, 'd' | 'D'),
        'E' => matches!(address_char, 'e' | 'E' | '3'),
        'F' => matches!(address_char, 'f' | 'F'),
        'G' => matches!(address_char, 'g' | 'G' | '6' | '9'),
        'H' => matches!(address_char, 'h' | 'H'),
        'J' => matches!(address_char, 'j' | 'J'),
        'K' => matches!(address_char, 'k' | 'K'),
        'L' => matches!(address_char, 'L' | '1'),
        'M' => matches!(address_char, 'm' | 'M'),
        'N' => matches!(address_char, 'n' | 'N'),
        'P' => matches!(address_char, 'p' | 'P'),
        'Q' => matches!(address_char, 'q' | 'Q'),
        'R' => matches!(address_char, 'r' | 'R'),
        'S' => matches!(address_char, 's' | 'S' | '5'),
        'T' => matches!(address_char, 't' | 'T' | '7'),
        'U' => matches!(address_char, 'u' | 'U'),
        'V' => matches!(address_char, 'v' | 'V'),
        'W' => matches!(address_char, 'w' | 'W'),
        'X' => matches!(address_char, 'x' | 'X'),
        'Y' => matches!(address_char, 'y' | 'Y'),
        'Z' => matches!(address_char, 'z' | 'Z' | '2'),
        _ => c.eq_ignore_ascii_case(&target),
    }
}

/// Every byte matches itself under flexible matching.
pub proof fn lemma_flexible_reflexive(c: u8)
    ensures
        flexible_match(c, c),
{
}

/// A pattern character of the alphabet accepts characters of the alphabet
/// only.
pub proof fn lemma_flexible_stays_in_alphabet(c: u8, target: u8)
    requires
        is_base58_byte(target),
        flexible_match(c, target),
    ensures
        is_base58_byte(c),
{
    lemma_base58_ranges(c as char);
    lemma_base58_ranges(target as char);
}

/// The pairs on which flexible matching holds in one direction only, with
/// the address character first: a lower-case or upper-case letter as pattern
/// may accept a digit that, as a pattern, accepts only the letter's other
/// case.
pub open spec fn one_way_pair(c: char, target: char) -> bool {
    ||| (c == '3' && target == 'e')
    ||| (c == '4' && target == 'a')
    ||| (c == '6' && target == 'B')
    ||| (c == '6' && target == 'g')
    ||| (c == '7' && target == 't')
    ||| (c == '9' && target == 'G')
}

/// Flexible matching is not symmetric. Between two characters of the
/// alphabet it holds one way and fails the other way on exactly six pairs;
/// on every other pair, `c` satisfies the pattern `target` if and only if
/// `target` satisfies the pattern `c`.
pub proof fn lemma_flexible_symmetry(c: u8, target: u8)
    requires
        is_base58_byte(c),
        is_base58_byte(target),
    ensures
        (flexible_match(c, target) && !flexible_match(target, c)) <==> one_way_pair(
            c as char,
            target as char,
        ),
{
    lemma_base58_ranges(c as char);
    lemma_base58_ranges(target as char);
}

/// The pattern `g` accepts the address character `9`, and the pattern `9`
/// accepts the address character `g`.
pub proof fn lemma_flexible_nine_and_g()
    ensures
        flexible_match('9' as u8, 'g' as u8),
        flexible_match('g' as u8, '9' as u8),
{
    lemma_base58_ranges('9');
    lemma_base58_ranges('g');
}

} // verus!
