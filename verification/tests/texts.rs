use twoliter::text::{before, join, replace_all, replace_char, starts_with, text_eq};

#[test]
fn replace_char_writes_the_replacement_for_each_occurrence() {
    assert_eq!(replace_char("sha256:abc", ':', "-"), "sha256-abc");
    assert_eq!(replace_char("a:b:c:", ':', "/"), "a/b/c/");
    assert_eq!(replace_char("line\nnext\n", '\n', "\\n"), "line\\nnext\\n");
    assert_eq!(replace_char("none", ':', "-"), "none");
    assert_eq!(replace_char("", ':', "-"), "");
    assert_eq!(replace_char("::", ':', ""), "");
    assert_eq!(replace_char("é:ü", ':', "→"), "é→ü");
}

#[test]
fn replace_all_replaces_from_the_left_without_overlap() {
    assert_eq!(replace_all("reg/kit:v1.0.0", ":v1.0.0", "@sha256:d"), "reg/kit@sha256:d");
    assert_eq!(replace_all("aaaa", "aa", "b"), "bb");
    assert_eq!(replace_all("aaa", "aa", "b"), "ba");
    assert_eq!(replace_all("abcabc", "bc", ""), "aa");
    assert_eq!(replace_all("abc", "abcd", "x"), "abc");
    assert_eq!(replace_all("abc", "", "x"), "abc");
    assert_eq!(replace_all("", "a", "x"), "");
    assert_eq!(replace_all("xaxa", "a", "aa"), "xaaxaa");
    assert_eq!(replace_all("ünï:v1", ":v1", "@ö"), "ünï@ö");
}

#[test]
fn replace_all_agrees_with_the_standard_library_on_non_empty_patterns() {
    let cases = [
        ("reg:v1.0.0/kit:v1.0.0", ":v1.0.0", "@d"),
        ("ababab", "aba", "x"),
        ("mississippi", "ss", "SS"),
        ("mississippi", "issi", "-"),
        ("aaaaa", "aa", "a"),
    ];
    for (text, pattern, with) in cases {
        assert_eq!(replace_all(text, pattern, with), text.replace(pattern, with));
    }
}

#[test]
fn join_puts_the_separator_between_neighbours() {
    let parts = vec!["a".to_string(), "b".to_string(), "c".to_string()];
    assert_eq!(join(&parts, ", "), "a, b, c");
    assert_eq!(join(&vec!["only".to_string()], ", "), "only");
    assert_eq!(join(&Vec::new(), ", "), "");
    assert_eq!(join(&vec![String::new(), String::new()], "-"), "-");
}

#[test]
fn starts_with_compares_the_head() {
    assert!(starts_with("sha256:abc", "sha256:"));
    assert!(starts_with("sha256:", "sha256:"));
    assert!(starts_with("anything", ""));
    assert!(!starts_with("sha256", "sha256:"));
    assert!(!starts_with("xsha256:abc", "sha256:"));
    assert!(!starts_with("", "a"));
}

#[test]
fn text_eq_compares_characters() {
    assert!(text_eq("abc", "abc"));
    assert!(!text_eq("abc", "abd"));
    assert!(!text_eq("abc", "ab"));
    assert!(text_eq("", ""));
}

#[test]
fn before_is_the_order_of_strings() {
    let words = ["", "a", "aa", "ab", "b", "B", "é", "z", "zz", "10", "9", "ünï", "a\u{10000}", "a\u{ffff}"];
    for a in words {
        for b in words {
            assert_eq!(before(a, b), a < b, "{:?} before {:?}", a, b);
        }
    }
}
