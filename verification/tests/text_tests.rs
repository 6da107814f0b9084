use helloui_core::text::blank;
use helloui_core::text::chars_of;
use helloui_core::text::appended;
use helloui_core::text::contains;
use helloui_core::text::contains_char;
use helloui_core::text::ends_with;
use helloui_core::text::i64_to_string;
use helloui_core::text::join;
use helloui_core::text::lines_of;
use helloui_core::text::same_text;
use helloui_core::text::starts_with;
use helloui_core::text::string_of;
use helloui_core::text::to_ascii_lowercase;
use helloui_core::text::trim;
use helloui_core::text::u128_to_string;
use helloui_core::text::u64_to_string;

#[test]
fn decimal_of_zero_and_small_numbers() {
    assert_eq!(u64_to_string(0), "0");
    assert_eq!(u64_to_string(7), "7");
    assert_eq!(u64_to_string(10), "10");
    assert_eq!(u64_to_string(1234567890), "1234567890");
}

#[test]
fn decimal_of_largest_numbers() {
    assert_eq!(u64_to_string(u64::MAX), "18446744073709551615");
    assert_eq!(u128_to_string(u128::MAX), u128::MAX.to_string());
}

#[test]
fn signed_decimal_covers_both_ends() {
    assert_eq!(i64_to_string(-1), "-1");
    assert_eq!(i64_to_string(0), "0");
    assert_eq!(i64_to_string(i64::MIN), "-9223372036854775808");
    assert_eq!(i64_to_string(i64::MAX), "9223372036854775807");
}

#[test]
fn chars_round_trip() {
    let v = chars_of("héllo ✓");
    assert_eq!(v.len(), 7);
    assert_eq!(string_of(&v), "héllo ✓");
}

#[test]
fn contains_finds_substrings() {
    assert!(contains("one step beyond", "step"));
    assert!(!contains("one stop beyond", "step"));
    assert!(contains("abc", ""));
    assert!(contains("", ""));
    assert!(!contains("", "a"));
    assert!(contains("abc", "abc"));
    assert!(!contains("ab", "abc"));
    assert!(contains("aab", "ab"));
}

#[test]
fn contains_char_finds_characters() {
    assert!(contains_char("50% done", '%'));
    assert!(!contains_char("done", '%'));
    assert!(!contains_char("", '%'));
}

#[test]
fn prefixes_and_suffixes() {
    assert!(starts_with("data:image/png;base64,", "data:image/png"));
    assert!(!starts_with("data", "data:image"));
    assert!(starts_with("x", ""));
    assert!(ends_with("movie.mp4", ".mp4"));
    assert!(!ends_with("mp4", ".mp4"));
    assert!(ends_with("x", ""));
}

#[test]
fn same_text_compares_by_characters() {
    assert!(same_text("cpu", "cpu"));
    assert!(!same_text("cpu", "cpu "));
    assert!(same_text("", ""));
}

#[test]
fn trim_matches_the_standard_library() {
    for s in [
        "",
        " ",
        "  a b \t\n",
        "\u{3000}x\u{00A0}",
        "\u{2003}\u{2028}y\u{205F}\u{1680}",
        "a",
        "\u{0085}z\u{200A}",
        "\u{200B}w\u{200B}",
        "\u{180E}v",
    ] {
        assert_eq!(trim(s), s.trim(), "trimming {:?}", s);
        assert_eq!(blank(s), s.trim().is_empty(), "blankness of {:?}", s);
    }
}

#[test]
fn white_space_agrees_with_the_standard_library_everywhere() {
    let mut c: u32 = 0;
    while c <= 0x10FFFF {
        if let Some(ch) = char::from_u32(c) {
            let s = ch.to_string();
            assert_eq!(blank(&s), ch.is_whitespace(), "code point {:#x}", c);
        }
        c += 1;
    }
}

#[test]
fn ascii_lowercase_leaves_other_letters() {
    assert_eq!(to_ascii_lowercase("Stable-Diffusion ÄB z[@`"), "stable-diffusion Äb z[@`");
    for s in ["", "ABCXYZ", "@[`{", "Größe"] {
        assert_eq!(to_ascii_lowercase(s), s.to_ascii_lowercase());
    }
}

#[test]
fn concat_and_join() {
    assert_eq!(appended("ab", "cd"), "abcd");
    assert_eq!(appended("", ""), "");
    let parts = vec!["a".to_string(), "b".to_string(), "c".to_string()];
    assert_eq!(join(&parts, ", "), "a, b, c");
    assert_eq!(join(&vec!["only".to_string()], ", "), "only");
    assert_eq!(join(&Vec::new(), ", "), "");
    assert_eq!(join(&vec!["".to_string(), "".to_string()], "-"), "-");
}

#[test]
fn lines_match_the_standard_library() {
    for s in [
        "",
        "a",
        "a\n",
        "a\r\nb\n\nc",
        "\n",
        "\n\n",
        "a\rb\n",
        "a\r",
        "last\r\n",
        "\r\n\r\n",
        "x\n\r\ny",
    ] {
        let chars: Vec<char> = s.chars().collect();
        let got: Vec<String> = lines_of(&chars).iter().map(|l| l.iter().collect()).collect();
        let expected: Vec<String> = s.lines().map(String::from).collect();
        assert_eq!(got, expected, "lines of {:?}", s);
    }
}
