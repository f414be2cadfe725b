use advocat::paths::{extension, join, with_extension};
use advocat::text::{
    char_count, chars_of, contains, decimal_text, same_text, split_lines, starts_with, text_of,
    text_precedes,
};

#[test]
fn numbers_are_written_without_leading_zeros() {
    assert_eq!(decimal_text(0), "0");
    assert_eq!(decimal_text(7), "7");
    assert_eq!(decimal_text(10), "10");
    assert_eq!(decimal_text(909), "909");
    assert_eq!(decimal_text(1_000_000), "1000000");
    assert_eq!(decimal_text(usize::MAX), usize::MAX.to_string());
}

#[test]
fn lines_end_at_line_feeds() {
    let none: Vec<String> = Vec::new();
    assert_eq!(split_lines(""), none);
    assert_eq!(split_lines("\n"), vec![""]);
    assert_eq!(split_lines("a"), vec!["a"]);
    assert_eq!(split_lines("a\n"), vec!["a"]);
    assert_eq!(split_lines("a\n\n"), vec!["a", ""]);
    assert_eq!(split_lines("a\nb"), vec!["a", "b"]);
    assert_eq!(split_lines("\na"), vec!["", "a"]);
    assert_eq!(split_lines("a\r\nb\r\n"), vec!["a", "b"]);
    assert_eq!(split_lines("a\rb\n"), vec!["a\rb"]);
    assert_eq!(split_lines("a\r"), vec!["a\r"]);
    assert_eq!(split_lines("a\r\r\n"), vec!["a\r"]);
    assert_eq!(split_lines("\r\n"), vec![""]);
    assert_eq!(split_lines("ñ\né"), vec!["ñ", "é"]);
}

#[test]
fn lines_are_split_as_the_standard_library_splits_them() {
    for text in ["", "\n", "a\r", "a\r\n\r\nb", "x\n\ny\n", "\r", "\r\r\n\n", "tab\there\n"] {
        let expected: Vec<String> = text.lines().map(|line| line.to_string()).collect();
        assert_eq!(split_lines(text), expected);
    }
}

#[test]
fn characters_are_counted_not_bytes() {
    assert_eq!(char_count(""), 0);
    assert_eq!(char_count("ñandú"), 5);
    assert_eq!(chars_of("aé│"), vec!['a', 'é', '│']);
    assert_eq!(text_of(&vec!['a', 'é', '│', 'z'], 1, 3), "é│");
    assert_eq!(text_of(&vec!['a'], 1, 1), "");
}

#[test]
fn texts_are_ordered_character_by_character() {
    assert!(text_precedes("", ""));
    assert!(text_precedes("", "a"));
    assert!(!text_precedes("a", ""));
    assert!(text_precedes("a", "a"));
    assert!(text_precedes("a", "ab"));
    assert!(!text_precedes("ab", "a"));
    assert!(text_precedes("B", "a"));
    assert!(!text_precedes("a", "B"));
    assert!(text_precedes("a10", "a2"));
    assert!(text_precedes("z", "é"));
    for (a, b) in [("t1.inp", "t2.inp"), ("é", "z"), ("", "x"), ("same", "same"), ("ab", "b")] {
        assert_eq!(text_precedes(a, b), a <= b);
        assert_eq!(text_precedes(b, a), b <= a);
    }
}

#[test]
fn texts_are_found_in_texts() {
    assert!(same_text("", ""));
    assert!(same_text("añb", "añb"));
    assert!(!same_text("ab", "ba"));
    assert!(!same_text("ab", "abc"));
    assert!(starts_with("sample-1", "sample"));
    assert!(starts_with("sample", "sample"));
    assert!(starts_with("x", ""));
    assert!(!starts_with("sampl", "sample"));
    assert!(!starts_with("a sample", "sample"));
    assert!(contains("text/html", "html"));
    assert!(contains("html", "html"));
    assert!(contains("abc", ""));
    assert!(contains("", ""));
    assert!(contains("aab", "ab"));
    assert!(!contains("htm", "html"));
    assert!(!contains("", "x"));
    assert!(!contains("abab", "abb"));
}

#[test]
fn paths_are_joined_with_one_separator() {
    assert_eq!(join("/tmp", "advocat"), "/tmp/advocat");
    assert_eq!(join("/tmp/", "advocat"), "/tmp/advocat");
    assert_eq!(join("", "advocat"), "advocat");
    assert_eq!(join("/tmp", ""), "/tmp/");
    assert_eq!(join("/tmp", "/etc"), "/etc");
    assert_eq!(join("a/b", "c/d"), "a/b/c/d");
    for (base, part) in [("/tmp", "x"), ("/tmp/", "x"), ("", "x"), ("a", "/b"), ("a", ""), ("/", "x")] {
        let expected = std::path::Path::new(base).join(part);
        assert_eq!(join(base, part), expected.to_string_lossy());
    }
}

#[test]
fn extensions_follow_the_last_dot() {
    assert_eq!(extension("t1.inp").as_deref(), Some("inp"));
    assert_eq!(extension("a.b.cor").as_deref(), Some("cor"));
    assert_eq!(extension("name.").as_deref(), Some(""));
    assert_eq!(extension("..x").as_deref(), Some("x"));
    assert_eq!(extension("name"), None);
    assert_eq!(extension(".hidden"), None);
    assert_eq!(extension(".."), None);
    assert_eq!(extension("."), None);
    assert_eq!(extension(""), None);
    for name in ["t1.inp", "a.b.cor", "name.", "..x", "name", ".hidden", "..", ".", "é.ñ"] {
        let expected = std::path::Path::new(name)
            .extension()
            .map(|found| found.to_string_lossy().into_owned());
        assert_eq!(extension(name), expected);
    }
}

#[test]
fn extensions_are_replaced_behind_the_stem() {
    assert_eq!(with_extension("t1.inp", "cor"), "t1.cor");
    assert_eq!(with_extension("a.b.inp", "cor"), "a.b.cor");
    assert_eq!(with_extension("name", "cor"), "name.cor");
    assert_eq!(with_extension(".hidden", "cor"), ".hidden.cor");
    assert_eq!(with_extension("name.", "cor"), "name.cor");
    for name in ["t1.inp", "a.b.inp", "name", ".hidden", "name.", "é.inp"] {
        let expected = std::path::Path::new(name).with_extension("cor");
        assert_eq!(with_extension(name, "cor"), expected.to_string_lossy());
    }
}
