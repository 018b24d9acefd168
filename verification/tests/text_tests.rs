use odt2pdf::text::{
    char_is_white_space, chars_of, ends_with, replace_all, split_whitespace, str_equal,
    string_from_chars,
};

#[test]
fn white_space_matches_std_for_every_char() {
    for n in 0u32..=0x10FFFF {
        if let Some(c) = char::from_u32(n) {
            assert_eq!(char_is_white_space(c), c.is_whitespace(), "char {:x}", n);
        }
    }
}

#[test]
fn chars_round_trip() {
    let s = "àb\u{3000}c";
    let v = chars_of(s);
    assert_eq!(v, vec!['à', 'b', '\u{3000}', 'c']);
    assert_eq!(string_from_chars(&v), s);
}

#[test]
fn split_whitespace_matches_std() {
    let samples = [
        "",
        "   ",
        "a",
        " a ",
        "timeout --kill-after 10s 1m time",
        "a\tb\nc\r\nd",
        "x\u{3000}y\u{a0}z\u{2028}",
        "  many   spaces  between ",
    ];
    for s in samples.iter() {
        let ours = split_whitespace(s);
        let std_words: Vec<String> = s.split_whitespace().map(|w| w.to_string()).collect();
        assert_eq!(ours, std_words, "input {:?}", s);
    }
}

#[test]
fn split_then_join_gives_words_back() {
    let words = vec!["nice".to_string(), "-n".to_string(), "20".to_string(), "cp".to_string()];
    let joined = words.join(" ");
    assert_eq!(split_whitespace(&joined), words);
}

#[test]
fn replace_all_matches_std() {
    let cases = [
        ("{file}", "{file}", "/tmp/a.odt"),
        ("a {file} b {file}", "{file}", "X"),
        ("aaa", "aa", "b"),
        ("abc", "", "x"),
        ("", "", "x"),
        ("", "ab", "x"),
        ("no placeholder", "{file}", "X"),
        ("{fil{file}", "{file}", "Y"),
    ];
    for (s, p, r) in cases.iter() {
        assert_eq!(replace_all(s, p, r), s.replace(p, r), "{:?} {:?} {:?}", s, p, r);
    }
}

#[test]
fn replace_all_overlapping_takes_leftmost() {
    assert_eq!(replace_all("aaa", "aa", "b"), "ba");
}

#[test]
fn replace_all_empty_pattern_surrounds_chars() {
    assert_eq!(replace_all("abc", "", "x"), "xaxbxcx");
}

#[test]
fn ends_with_cases() {
    assert!(ends_with("report.odt", ".odt"));
    assert!(ends_with(".odt", ".odt"));
    assert!(!ends_with("odt", ".odt"));
    assert!(!ends_with("report.ODT", ".odt"));
    assert!(!ends_with("report.odt.pdf", ".odt"));
    assert!(ends_with("anything", ""));
}

#[test]
fn str_equal_cases() {
    assert!(str_equal("application/zip\n", "application/zip\n"));
    assert!(!str_equal("application/zip", "application/zip\n"));
    assert!(str_equal("", ""));
}
