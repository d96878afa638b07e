use android_tools::text::{
    chars_of, find_seq, is_whitespace, rfind_in, split_lines, split_words, trim_str,
};

#[test]
fn trim_removes_outer_whitespace_only() {
    assert_eq!(trim_str("  a b \t\r\n"), "a b");
    assert_eq!(trim_str(""), "");
    assert_eq!(trim_str(" \u{3000}\u{a0} "), "");
    assert_eq!(trim_str("x"), "x");
}

#[test]
fn trim_matches_std() {
    for s in ["", "  ", "abc", " abc", "abc ", "\n\tabc def\r\n", "\u{2003}中文\u{85}"] {
        assert_eq!(trim_str(s), s.trim());
    }
}

#[test]
fn whitespace_matches_std() {
    for u in 0u32..0x3100 {
        if let Some(c) = char::from_u32(u) {
            assert_eq!(is_whitespace(c), c.is_whitespace(), "{:x}", u);
        }
    }
}

#[test]
fn lines_follow_std() {
    for s in [
        "",
        "\n",
        "a",
        "a\n",
        "a\nb",
        "a\r\nb\r\n",
        "foo\nbar\n\r\nbaz\r",
        "\n\nx",
        "List of devices attached\nemulator-5554 device\n\n",
    ] {
        let expected: Vec<String> = s.lines().map(|l| l.to_string()).collect();
        assert_eq!(split_lines(s), expected, "{:?}", s);
    }
}

#[test]
fn words_follow_std() {
    for s in ["", "   ", "a", " a  b\tc\n", "shell pm list packages", "x\u{3000}y"] {
        let expected: Vec<String> = s.split_whitespace().map(|w| w.to_string()).collect();
        assert_eq!(split_words(s), expected, "{:?}", s);
    }
}

#[test]
fn find_and_rfind() {
    let s = chars_of("abcabc");
    assert_eq!(find_seq(&s, &chars_of("ca")), Some(2));
    assert_eq!(find_seq(&s, &chars_of("x")), None);
    assert_eq!(find_seq(&s, &chars_of("")), Some(0));
    assert_eq!(rfind_in(&s, 'a'), Some(3));
    assert_eq!(rfind_in(&s, 'z'), None);
}
