use solana_vanity_address::alphabet::is_base58;
use solana_vanity_address::confusable::matches_flexible;
use solana_vanity_address::matcher::{matches_char, matches_pattern, matches_window, MatchType};

const ALPHABET: &str = "123456789ABCDEFGHJKLMNPQRSTUVWXYZabcdefghijkmnopqrstuvwxyz";

/// The address characters that each pattern character accepts.
const TABLE: [(u8, &str); 58] = [
    (b'1', "1iL"),
    (b'2', "2zZ"),
    (b'3', "3E"),
    (b'4', "4A"),
    (b'5', "5sS"),
    (b'6', "6bG"),
    (b'7', "7T"),
    (b'8', "8B"),
    (b'9', "9g"),
    (b'a', "aA4"),
    (b'b', "bB6"),
    (b'c', "cC"),
    (b'd', "dD"),
    (b'e', "eE3"),
    (b'f', "fF"),
    (b'g', "gG69"),
    (b'h', "hH"),
    (b'i', "i1"),
    (b'j', "jJ"),
    (b'k', "kK"),
    (b'm', "mM"),
    (b'n', "nN"),
    (b'o', "o"),
    (b'p', "pP"),
    (b'q', "qQ"),
    (b'r', "rR"),
    (b's', "sS5"),
    (b't', "tT7"),
    (b'u', "uU"),
    (b'v', "vV"),
    (b'w', "wW"),
    (b'x', "xX"),
    (b'y', "yY"),
    (b'z', "zZ2"),
    (b'A', "aA4"),
    (b'B', "bB68"),
    (b'C', "cC"),
    (b'D', "dD"),
    (b'E', "eE3"),
    (b'F', "fF"),
    (b'G', "gG69"),
    (b'H', "hH"),
    (b'J', "jJ"),
    (b'K', "kK"),
    (b'L', "L1"),
    (b'M', "mM"),
    (b'N', "nN"),
    (b'P', "pP"),
    (b'Q', "qQ"),
    (b'R', "rR"),
    (b'S', "sS5"),
    (b'T', "tT7"),
    (b'U', "uU"),
    (b'V', "vV"),
    (b'W', "wW"),
    (b'X', "xX"),
    (b'Y', "yY"),
    (b'Z', "zZ2"),
];

const MODES: [MatchType; 3] = [MatchType::Prefix, MatchType::Suffix, MatchType::Either];

#[test]
fn alphabet_has_58_characters() {
    let mut count = 0;
    for code in 0u32..=0x7ff {
        let c = char::from_u32(code).unwrap();
        assert_eq!(is_base58(c), ALPHABET.contains(c), "character {:?}", c);
        if is_base58(c) {
            count += 1;
        }
    }
    assert_eq!(count, 58);
}

#[test]
fn alphabet_leaves_out_ambiguous_characters() {
    for c in ['0', 'O', 'I', 'l'] {
        assert!(!is_base58(c));
    }
    for c in ['1', '9', 'A', 'H', 'J', 'N', 'P', 'Z', 'a', 'k', 'm', 'z'] {
        assert!(is_base58(c));
    }
}

#[test]
fn flexible_table_holds_every_entry() {
    assert_eq!(TABLE.len(), ALPHABET.len());
    for (target, accepted) in TABLE {
        assert!(ALPHABET.as_bytes().contains(&target));
        for c in 0u8..=255 {
            assert_eq!(
                matches_flexible(c, target),
                accepted.as_bytes().contains(&c),
                "address {:?} against pattern {:?}",
                c as char,
                target as char
            );
        }
    }
}

#[test]
fn flexible_falls_back_to_case_insensitive_outside_the_table() {
    for target in 0u8..=255 {
        if ALPHABET.as_bytes().contains(&target) {
            continue;
        }
        for c in 0u8..=255 {
            assert_eq!(matches_flexible(c, target), c.eq_ignore_ascii_case(&target));
        }
    }
    assert!(matches_flexible(b'o', b'O'));
    assert!(matches_flexible(b'L', b'l'));
    assert!(matches_flexible(b'0', b'0'));
    assert!(!matches_flexible(b'O', b'0'));
}

#[test]
fn flexible_is_reflexive() {
    for c in 0u8..=255 {
        assert!(matches_flexible(c, c));
        assert!(matches_char(c, c, false, true));
        assert!(matches_char(c, c, false, false));
        assert!(matches_char(c, c, true, false));
        assert!(matches_char(c, c, true, true));
    }
}

#[test]
fn flexible_nine_and_g_accept_each_other() {
    assert!(matches_flexible(b'9', b'g'));
    assert!(matches_flexible(b'g', b'9'));
}

#[test]
fn flexible_is_one_way_on_six_pairs() {
    let one_way = [(b'3', b'e'), (b'4', b'a'), (b'6', b'B'), (b'6', b'g'), (b'7', b't'), (b'9', b'G')];
    for c in ALPHABET.bytes() {
        for target in ALPHABET.bytes() {
            let forth = matches_flexible(c, target);
            let back = matches_flexible(target, c);
            assert_eq!(forth && !back, one_way.contains(&(c, target)), "{} {}", c as char, target as char);
        }
    }
    assert!(matches_flexible(b'6', b'B'));
    assert!(!matches_flexible(b'B', b'6'));
}

#[test]
fn char_rules() {
    assert!(matches_char(b'a', b'a', true, false));
    assert!(!matches_char(b'A', b'a', true, false));
    assert!(!matches_char(b'4', b'a', true, true));
    assert!(matches_char(b'A', b'a', false, false));
    assert!(!matches_char(b'4', b'a', false, false));
    assert!(matches_char(b'4', b'a', false, true));
    assert!(matches_char(b'A', b'a', false, true));
    assert!(!matches_char(b'b', b'a', false, true));
}

#[test]
fn case_folding_touches_letters_only() {
    assert!(matches_char(b'Z', b'z', false, false));
    assert!(matches_char(b'z', b'Z', false, false));
    assert!(!matches_char(b'@', b'`', false, false));
    assert!(!matches_char(b'[', b'{', false, false));
    assert!(!matches_char(0xC1, 0xE1, false, false));
    for c in 0u8..=255 {
        for target in 0u8..=255 {
            assert_eq!(
                matches_char(c, target, false, false),
                c.to_ascii_lowercase() == target.to_ascii_lowercase()
            );
        }
    }
}

#[test]
fn prefix_scenario() {
    let address = b"9mBx7KqLw3TzVUdR2sYcEhNf8GpJ5aXoMi4Dk6WbQtCn";
    assert!(matches_pattern(address, b"9mB", MatchType::Prefix, true, false));
    assert!(!matches_pattern(address, b"9mB", MatchType::Suffix, true, false));
    assert!(matches_pattern(address, b"9mB", MatchType::Either, true, false));
    let both = b"9mBx7KqLw3TzVUdR2sYcEhNf8GpJ5aXoMi4Dk6Wb9mB";
    assert!(matches_pattern(both, b"9mB", MatchType::Suffix, true, false));
    assert!(matches_pattern(both, b"9mB", MatchType::Prefix, true, false));
}

#[test]
fn suffix_scenario() {
    let address = b"9mBx7KqLw3TzVUdR2sYcEhNf8GpJ5aXoMi4Dk6WbQtCn";
    assert!(matches_pattern(address, b"tCn", MatchType::Suffix, true, false));
    assert!(!matches_pattern(address, b"tCn", MatchType::Prefix, true, false));
    assert!(matches_pattern(address, b"tCn", MatchType::Either, true, false));
    assert!(!matches_pattern(address, b"tcn", MatchType::Suffix, true, false));
    assert!(matches_pattern(address, b"tcn", MatchType::Suffix, false, false));
    // the pattern `7` accepts `T`, not `t`
    assert!(!matches_pattern(address, b"7CN", MatchType::Suffix, false, true));
    let with_digit = b"9mBx7KqLw3TzVUdR2sYcEhNf8GpJ5aXoMi4Dk6WbQ7Cn";
    assert!(matches_pattern(with_digit, b"tCN", MatchType::Suffix, false, true));
    assert!(!matches_pattern(with_digit, b"tCN", MatchType::Suffix, false, false));
    assert!(!matches_pattern(with_digit, b"tCN", MatchType::Suffix, true, true));
}

#[test]
fn prefix_compares_the_leading_bytes() {
    let address = b"AbCdEfGh";
    let patterns: [&[u8]; 6] = [b"", b"A", b"Ab", b"ab", b"4bC", b"AbCdEfGh"];
    for pattern in patterns {
        for (case_sensitive, flexible) in [(true, false), (false, false), (false, true)] {
            let expected = (0..pattern.len())
                .all(|i| matches_char(address[i], pattern[i], case_sensitive, flexible));
            assert_eq!(
                matches_pattern(address, pattern, MatchType::Prefix, case_sensitive, flexible),
                expected
            );
        }
    }
    assert!(matches_pattern(address, b"Ab", MatchType::Prefix, true, false));
    assert!(!matches_pattern(address, b"ab", MatchType::Prefix, true, false));
    assert!(matches_pattern(address, b"ab", MatchType::Prefix, false, false));
    assert!(!matches_pattern(address, b"4bC", MatchType::Prefix, false, false));
    assert!(matches_pattern(address, b"4bC", MatchType::Prefix, false, true));
}

#[test]
fn either_is_prefix_or_suffix() {
    let addresses: [&[u8]; 4] = [b"abcXYZ", b"XYZabc", b"abcabc", b"ab"];
    let patterns: [&[u8]; 5] = [b"abc", b"ABC", b"4bc", b"xyz", b""];
    for address in addresses {
        for pattern in patterns {
            for case_sensitive in [false, true] {
                for flexible in [false, true] {
                    let prefix =
                        matches_pattern(address, pattern, MatchType::Prefix, case_sensitive, flexible);
                    let suffix =
                        matches_pattern(address, pattern, MatchType::Suffix, case_sensitive, flexible);
                    let either =
                        matches_pattern(address, pattern, MatchType::Either, case_sensitive, flexible);
                    assert_eq!(either, prefix || suffix);
                }
            }
        }
    }
    assert!(matches_pattern(b"abcXYZ", b"xyz", MatchType::Either, false, false));
    assert!(!matches_pattern(b"abcXYZ", b"xyz", MatchType::Either, true, false));
}

#[test]
fn case_sensitive_run_ignores_the_flexible_flag() {
    let addresses: [&[u8]; 3] = [b"1abcde", b"iabcde", b"Labcd1"];
    let patterns: [&[u8]; 4] = [b"1", b"i", b"L", b"iab"];
    for address in addresses {
        for pattern in patterns {
            for mode in MODES {
                assert_eq!(
                    matches_pattern(address, pattern, mode, true, true),
                    matches_pattern(address, pattern, mode, true, false)
                );
            }
        }
    }
    assert!(!matches_pattern(b"1abcde", b"iab", MatchType::Prefix, true, true));
    assert!(matches_pattern(b"1abcde", b"iab", MatchType::Prefix, false, true));
}

#[test]
fn pattern_longer_than_address_is_no_match() {
    for mode in MODES {
        for case_sensitive in [false, true] {
            for flexible in [false, true] {
                assert!(!matches_pattern(b"abc", b"abcd", mode, case_sensitive, flexible));
                assert!(!matches_pattern(b"", b"a", mode, case_sensitive, flexible));
            }
        }
    }
}

#[test]
fn empty_pattern_matches_everything() {
    for mode in MODES {
        assert!(matches_pattern(b"abc", b"", mode, true, false));
        assert!(matches_pattern(b"", b"", mode, false, true));
    }
}

#[test]
fn whole_address_as_pattern() {
    for mode in MODES {
        assert!(matches_pattern(b"abc", b"abc", mode, true, false));
        assert!(!matches_pattern(b"abc", b"abd", mode, true, false));
    }
}

#[test]
fn window_in_the_middle() {
    assert!(matches_window(b"abcdef", b"cd", 2, true, false));
    assert!(!matches_window(b"abcdef", b"cd", 1, true, false));
    assert!(matches_window(b"abcdef", b"ef", 4, true, false));
    assert!(!matches_window(b"abcdef", b"ef", 5, true, false));
    assert!(!matches_window(b"abcdef", b"", 7, true, false));
    assert!(matches_window(b"abcdef", b"", 6, true, false));
    assert!(!matches_window(b"abcdef", b"a", usize::MAX, true, false));
}

#[test]
fn suffix_compares_the_trailing_bytes() {
    let address = b"AbCdEfGh";
    let patterns: [&[u8]; 6] = [b"", b"h", b"Gh", b"gH", b"fg8", b"AbCdEfGh"];
    for pattern in patterns {
        for (case_sensitive, flexible) in [(true, false), (false, false), (false, true)] {
            let start = address.len() - pattern.len();
            let expected = (0..pattern.len())
                .all(|i| matches_char(address[start + i], pattern[i], case_sensitive, flexible));
            assert_eq!(
                matches_pattern(address, pattern, MatchType::Suffix, case_sensitive, flexible),
                expected
            );
        }
    }
    assert!(matches_pattern(address, b"Gh", MatchType::Suffix, true, false));
    assert!(!matches_pattern(address, b"gH", MatchType::Suffix, true, false));
    assert!(matches_pattern(address, b"gH", MatchType::Suffix, false, false));
    assert!(!matches_pattern(address, b"fg8", MatchType::Suffix, false, true));
    assert!(matches_pattern(b"AbCdEf6B", b"fgB", MatchType::Suffix, false, true));
}

#[test]
fn case_sensitive_search_looks_for_the_pattern_as_written() {
    let addresses: [&[u8]; 4] = [b"abcXYZabc", b"XYZabc", b"abc", b""];
    let patterns: [&[u8]; 6] = [b"abc", b"ABC", b"XYZ", b"abcXYZabc", b"c", b""];
    for address in addresses {
        for pattern in patterns {
            for flexible in [false, true] {
                assert_eq!(
                    matches_pattern(address, pattern, MatchType::Prefix, true, flexible),
                    address.starts_with(pattern)
                );
                assert_eq!(
                    matches_pattern(address, pattern, MatchType::Suffix, true, flexible),
                    address.ends_with(pattern)
                );
            }
        }
    }
}

#[test]
fn each_rule_accepts_what_the_stricter_rule_accepts() {
    for c in ALPHABET.bytes() {
        for target in 0u8..=255 {
            if matches_char(c, target, true, false) {
                assert!(matches_char(c, target, false, false));
            }
            if matches_char(c, target, false, false) {
                assert!(matches_char(c, target, false, true));
            }
        }
    }
    // an address byte outside the alphabet can match up to case and fail flexibly
    assert!(matches_char(b'I', b'i', false, false));
    assert!(!matches_char(b'I', b'i', false, true));
    let address = b"4bCdEfGh";
    for mode in MODES {
        for pattern in [&b"4bC"[..], b"fGh", b"4BC", b"FGH", b"abc", b"f6h"] {
            let exact = matches_pattern(address, pattern, mode, true, false);
            let folded = matches_pattern(address, pattern, mode, false, false);
            let flexible = matches_pattern(address, pattern, mode, false, true);
            assert!(!exact || folded);
            assert!(!folded || flexible);
        }
    }
    assert!(matches_pattern(address, b"abc", MatchType::Prefix, false, true));
    assert!(!matches_pattern(address, b"abc", MatchType::Prefix, false, false));
}
