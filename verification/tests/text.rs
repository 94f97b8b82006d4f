use sentiric_ai_pipeline_sdk::text::{
    contains, ends_with, is_white_space, starts_with_any_case, trim, trim_end, trim_start,
};

#[test]
fn white_space_is_that_of_std_for_every_character() {
    for n in 0..=0x10ffffu32 {
        if let Some(c) = char::from_u32(n) {
            assert_eq!(is_white_space(c), c.is_whitespace(), "{:x}", n);
        }
    }
}

#[test]
fn trimming_is_that_of_std() {
    for s in [
        "",
        " ",
        " \t\n ",
        "a",
        " a",
        "a ",
        "\u{3000}merhaba d\u{fc}nya\u{a0}\r\n",
        "\u{200b}x\u{200b}",
        "  iki  kelime  ",
    ] {
        assert_eq!(trim(s), s.trim());
        assert_eq!(trim_end(s), s.trim_end());
        assert_eq!(trim_start(s), s.trim_start());
    }
}

#[test]
fn a_part_is_found_where_it_stands() {
    for s in ["", "e", "ee", "xeey", "hmm", "\u{131}\u{131}", "a\u{131}b\u{131}\u{131}"] {
        for part in ["", "e", "ee", "mm", "hm", "\u{131}\u{131}", "xeeyz"] {
            assert_eq!(contains(s, part), s.contains(part), "{:?} in {:?}", part, s);
        }
    }
}

#[test]
fn the_last_character_is_told() {
    assert!(ends_with("abc.", '.'));
    assert!(!ends_with("abc. ", '.'));
    assert!(!ends_with("", '.'));
    assert!(ends_with("\u{fc}", '\u{fc}'));
}

#[test]
fn prefixes_are_told_in_any_case() {
    assert!(starts_with_any_case("http://a", "http://"));
    assert!(starts_with_any_case("HtTp://a", "http://"));
    assert!(!starts_with_any_case("https://a", "http://"));
    assert!(!starts_with_any_case("http:/", "http://"));
    assert!(!starts_with_any_case("", "http://"));
    assert!(starts_with_any_case("", ""));
    // A hyphen is not the capital of an M, nor a bracket that of a brace.
    assert!(!starts_with_any_case("-", "m"));
    assert!(!starts_with_any_case("[", "{"));
}
