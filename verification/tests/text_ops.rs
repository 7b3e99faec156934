use package_updater::text::{
    blank, find_chars, has_infix, has_prefix, is_whitespace, occurs_at, prefix_before_first,
    prefix_before_last, same_text, split_fields, split_lines, split_words, text_of, to_chars,
    trimmed,
};

fn chars(s: &str) -> Vec<char> {
    s.chars().collect()
}

fn strings(v: Vec<Vec<char>>) -> Vec<String> {
    v.iter().map(|w| w.iter().collect()).collect()
}

fn samples() -> Vec<&'static str> {
    vec![
        "",
        " ",
        "a",
        "  a  ",
        "a b",
        " a  b\tc\u{a0}d\u{3000} ",
        "firefox 120.0-1 -> 121.0-1",
        "S | Repository | Name",
        "a|b||c|",
        "|",
        "one\ntwo\r\nthree",
        "one\n\ntwo\n",
        "\n",
        "\r\n",
        "a\r",
        "a\r\r\n",
        "tab\tseparated\t\tfields",
        "caf\u{e9} \u{1f600} emoji",
        "\u{2003}em space\u{2003}",
        "x\u{85}y\u{1680}z",
    ]
}

#[test]
fn characters_round_trip() {
    for s in samples() {
        assert_eq!(to_chars(s), chars(s));
        assert_eq!(text_of(&chars(s)), s);
    }
}

#[test]
fn characters_become_text() {
    assert_eq!(text_of(&chars("hello world")), "hello world");
    assert_eq!(text_of(&chars("")), "");
    assert_eq!(text_of(&chars("a\u{e9}\u{1f600}")), "a\u{e9}\u{1f600}");
    assert_eq!(text_of(&vec!['b', 'a']), "ba");
}

#[test]
fn white_space_is_what_the_standard_library_says() {
    for n in 0..=0x10FFFFu32 {
        if let Some(c) = char::from_u32(n) {
            assert_eq!(is_whitespace(c), c.is_whitespace(), "U+{:04X}", n);
        }
    }
}

#[test]
fn words_are_what_the_standard_library_splits() {
    for s in samples() {
        let expected: Vec<String> = s.split_whitespace().map(|w| w.to_string()).collect();
        assert_eq!(strings(split_words(&chars(s))), expected, "{:?}", s);
    }
}

#[test]
fn fields_are_what_the_standard_library_splits() {
    for s in samples() {
        for c in ['|', '\t', '/', ' '] {
            let expected: Vec<String> = s.split(c).map(|w| w.to_string()).collect();
            assert_eq!(strings(split_fields(&chars(s), c)), expected, "{:?} {:?}", s, c);
        }
    }
}

#[test]
fn lines_are_what_the_standard_library_splits() {
    for s in samples() {
        let expected: Vec<String> = s.lines().map(|w| w.to_string()).collect();
        assert_eq!(strings(split_lines(&chars(s))), expected, "{:?}", s);
    }
}

#[test]
fn trimming_is_what_the_standard_library_trims() {
    for s in samples() {
        assert_eq!(trimmed(&chars(s)), chars(s.trim()), "{:?}", s);
        assert_eq!(blank(&chars(s)), s.trim().is_empty(), "{:?}", s);
    }
}

#[test]
fn searching_agrees_with_the_standard_library() {
    let patterns = [" -> ", "a", "", "[upgradable from:", "\n", "ab", "S |", "\u{e9} "];
    for s in samples() {
        for p in patterns {
            let expected = s.find(p).map(|byte| s[..byte].chars().count());
            assert_eq!(find_chars(&chars(s), &chars(p)), expected, "{:?} {:?}", s, p);
            assert_eq!(has_infix(&chars(s), p), s.contains(p), "{:?} {:?}", s, p);
            assert_eq!(has_prefix(&chars(s), p), s.starts_with(p), "{:?} {:?}", s, p);
            assert_eq!(same_text(&chars(s), p), s == p, "{:?} {:?}", s, p);
        }
    }
}

#[test]
fn occurrences_at_an_index() {
    let s = chars("abcabc");
    let p = chars("bc");
    assert!(!occurs_at(&s, &p, 0));
    assert!(occurs_at(&s, &p, 1));
    assert!(occurs_at(&s, &p, 4));
    assert!(!occurs_at(&s, &p, 5));
    assert!(!occurs_at(&s, &p, 6));
    assert!(!occurs_at(&s, &p, 100));
    assert!(occurs_at(&s, &chars(""), 6));
    assert!(!occurs_at(&s, &chars(""), 7));
    assert_eq!(find_chars(&s, &p), Some(1));
    assert_eq!(find_chars(&s, &chars("abcabcd")), None);
    assert_eq!(find_chars(&s, &chars("cab")), Some(2));
}

#[test]
fn text_before_a_character() {
    assert_eq!(prefix_before_first(&chars("firefox/jammy 1.0"), '/'), chars("firefox"));
    assert_eq!(prefix_before_first(&chars("no slash"), '/'), chars("no slash"));
    assert_eq!(prefix_before_first(&chars("/lead"), '/'), chars(""));
    assert_eq!(prefix_before_last(&chars("busybox-1.36.1-r5"), '-'), chars("busybox-1.36.1"));
    assert_eq!(prefix_before_last(&chars("python3.11-libs.x86_64"), '.'), chars("python3.11-libs"));
    assert_eq!(prefix_before_last(&chars("plain"), '-'), chars("plain"));
    assert_eq!(prefix_before_last(&chars("-x"), '-'), chars(""));
    assert_eq!(prefix_before_last(&chars("x-"), '-'), chars("x"));
    assert_eq!(prefix_before_last(&chars(""), '-'), chars(""));
}
