use r_tvui::git::{git_mark, parse_git_status};

#[test]
fn porcelain_lines_give_name_and_letter() {
    let out = " M src/main.rs\n?? notes.txt\nA  added.rs\nR  old.rs -> dir/new.rs\nD  gone\nx\n   \n   spaced.txt\n";
    let marks = parse_git_status(out);
    assert_eq!(
        marks,
        vec![
            ("main.rs".to_string(), 'M'),
            ("notes.txt".to_string(), '?'),
            ("added.rs".to_string(), 'A'),
            ("new.rs".to_string(), 'R'),
            ("gone".to_string(), 'D'),
            ("spaced.txt".to_string(), '?'),
        ]
    );
    assert_eq!(git_mark(&marks, "main.rs"), Some('M'));
    assert_eq!(git_mark(&marks, "old.rs"), None);
}

#[test]
fn later_marks_override_earlier_ones() {
    let marks = parse_git_status("M  a/x.rs\n?? b/x.rs\n");
    assert_eq!(git_mark(&marks, "x.rs"), Some('?'));
    assert!(parse_git_status("").is_empty());
}

#[test]
fn porcelain_lines_are_measured_in_bytes() {
    // "é" takes two bytes: "?é" is three bytes and skipped by length, while
    // "éé" (four bytes) has no character ending at its third byte.
    assert!(r_tvui::git::porcelain_text_ok("?é\n"));
    assert!(parse_git_status("?é\n").is_empty());
    assert!(!r_tvui::git::porcelain_text_ok("éé\n"));
    // A three-byte character makes up the status columns on its own.
    let marks = parse_git_status("\u{20ac}x.txt\n");
    assert_eq!(git_mark(&marks, "x.txt"), Some('\u{20ac}'));
    // Three characters of four bytes: read by bytes, not skipped.
    let marks = parse_git_status("Mé a\n");
    assert_eq!(marks, vec![("a".to_string(), 'M')]);
}
