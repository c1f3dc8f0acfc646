use signalbot::text::{contains_str, ends_with_str, escape, join, lines_of, starts_with_prefix, trim};

fn strs(v: &[&str]) -> Vec<String> {
    v.iter().map(|s| s.to_string()).collect()
}

#[test]
fn trimming_matches_std() {
    for s in ["", "  ", " a b ", "\t\nx\r\n", "\u{3000}y\u{85}", "z"] {
        assert_eq!(trim(s), s.trim());
    }
}

#[test]
fn lines_match_std() {
    for s in ["", "a", "a\n", "a\r\nb", "\n\n", "a\rb\n", "x\ny\r\n\r\nz"] {
        let expect: Vec<String> = s.lines().map(|l| l.to_string()).collect();
        assert_eq!(lines_of(s), expect);
    }
}

#[test]
fn joining_and_escaping() {
    assert_eq!(join(&strs(&["a", "b", "c"]), ", "), "a, b, c");
    assert_eq!(join(&vec![], "-"), "");
    assert_eq!(escape("a\"b\\c"), "a\\\"b\\\\c");
}

#[test]
fn prefixes_suffixes_and_contents() {
    assert!(starts_with_prefix("v18.2.0", "v18"));
    assert!(!starts_with_prefix("v1", "v18"));
    assert!(ends_with_str("a.json", ".json"));
    assert!(!ends_with_str("json", ".json"));
    assert!(contains_str("my_private.key", "private"));
    assert!(!contains_str("pri", "private"));
}
