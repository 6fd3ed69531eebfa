use anonvote_backend::text::{
    eq_ignoring_case, is_white_space, lower_char, replace_all, same_text, split_words, trim,
    trim_any_hex_prefix, trim_hex_prefix,
};

#[test]
fn white_space_is_that_of_unicode() {
    for n in 0..=0x10FFFFu32 {
        if let Some(c) = char::from_u32(n) {
            assert_eq!(is_white_space(c), c.is_whitespace(), "{:?}", c);
        }
    }
}

#[test]
fn lowercase_of_ascii_letters() {
    for n in 0..=0x3FFu32 {
        let c = char::from_u32(n).unwrap();
        assert_eq!(lower_char(c), c.to_ascii_lowercase());
    }
}

#[test]
fn trims_like_the_standard_library() {
    for s in ["", "   ", "a", " a ", "\t\n a b \u{3000}", "\u{85}x\u{a0}", "\u{200b}x"] {
        assert_eq!(trim(s), s.trim());
    }
}

#[test]
fn hex_prefixes_are_trimmed_as_often_as_they_come() {
    for s in ["", "0", "0x", "0x0x12", "x0", "0X12", "12", "0x0", "00x1"] {
        assert_eq!(trim_hex_prefix(s), s.trim_start_matches("0x"));
    }
}

#[test]
fn hex_prefixes_of_either_case_are_trimmed() {
    for (s, plain) in [("0x12", "12"), ("0X12", "12"), ("0x0X12", "12"), ("12", "12"), ("0", "0"), ("X1", "X1")] {
        assert_eq!(trim_any_hex_prefix(s), plain);
    }
}

#[test]
fn words_are_split_at_white_space() {
    for s in ["", "  ", "one", " one  two\tthree\n", "a\u{2003}b"] {
        let expected: Vec<String> = s.split_whitespace().map(|w| w.to_string()).collect();
        assert_eq!(split_words(s), expected);
    }
}

#[test]
fn every_occurrence_is_replaced() {
    for (s, p, w) in [
        ("a{out}b{out}", "{out}", "X"),
        ("{out}", "{out}", "{out}{out}"),
        ("aaa", "aa", "b"),
        ("", "a", "b"),
        ("none", "{x}", "b"),
    ] {
        assert_eq!(replace_all(s, p, w), s.replace(p, w));
    }
}

#[test]
fn comparing_with_and_without_case() {
    assert!(same_text("voting", "voting"));
    assert!(!same_text("voting", "Voting"));
    assert!(eq_ignoring_case("AbC", "aBc"));
    assert!(!eq_ignoring_case("abc", "abd"));
    assert!(!eq_ignoring_case("abc", "ab"));
    // only the letters A to Z have their case ignored
    assert!(!eq_ignoring_case("\u{e4}", "\u{c4}"));
}
