use r_tvui::text::{lines, str_contains, to_ascii_lowercase, trim};

#[test]
fn lines_split_at_newlines_and_crlf() {
    let got = lines("foo\nbar\n\r\nbaz\r");
    assert_eq!(got, vec!["foo".to_string(), "bar".to_string(), "".to_string(), "baz\r".to_string()]);
}

#[test]
fn lines_of_empty_and_final_newline() {
    assert!(lines("").is_empty());
    assert_eq!(lines("\n"), vec!["".to_string()]);
    assert_eq!(lines("a\n"), vec!["a".to_string()]);
    assert_eq!(lines("a\n\nb"), vec!["a".to_string(), "".to_string(), "b".to_string()]);
}

#[test]
fn lines_agree_with_std() {
    for s in ["x\r\ny", "\r\n\r\n", "one", "  \n  ", "a\rb\n"] {
        let want: Vec<String> = s.lines().map(|l| l.to_string()).collect();
        assert_eq!(lines(s), want);
    }
}

#[test]
fn trim_removes_outer_whitespace_only() {
    assert_eq!(trim("  a b \t\n"), "a b");
    assert_eq!(trim("\u{3000}x\u{a0}"), "x");
    assert_eq!(trim("   "), "");
    for s in [" q ", "\tz", "w\r\n", "mid dle", ""] {
        assert_eq!(trim(s), s.trim());
    }
}

#[test]
fn contains_finds_runs_of_characters() {
    assert!(str_contains("readme.md", "me.m"));
    assert!(str_contains("abc", ""));
    assert!(str_contains("", ""));
    assert!(!str_contains("ab", "abc"));
    assert!(!str_contains("aab", "abb"));
    assert!(str_contains("ééx", "éx"));
}

#[test]
fn ascii_lowercase_maps_capitals_only() {
    assert_eq!(to_ascii_lowercase("JPG"), "jpg");
    assert_eq!(to_ascii_lowercase("Tiff-É"), "tiff-É");
    assert_eq!(to_ascii_lowercase("@[Z]"), "@[z]");
}
