use barge::text::{
    decimal_text, find_last, has_prefix, has_suffix, is_space_char, join, same_text,
    split_on, strip_prefix, trim, trim_end, trim_start,
};

fn texts(items: &[&str]) -> Vec<String> {
    items.iter().map(|s| s.to_string()).collect()
}

#[test]
fn white_space_is_the_unicode_property() {
    for c in [' ', '\t', '\n', '\r', '\u{0B}', '\u{0C}', '\u{85}', '\u{A0}', '\u{1680}', '\u{2003}', '\u{2028}', '\u{2029}', '\u{202F}', '\u{205F}', '\u{3000}'] {
        assert!(is_space_char(c));
        assert!(c.is_whitespace());
    }
    for c in ['a', '-', '0', '\u{200B}', '\u{FEFF}', '\u{1F}'] {
        assert!(!is_space_char(c));
        assert!(!c.is_whitespace());
    }
}

#[test]
fn white_space_agrees_with_std_on_every_character() {
    let mut code: u32 = 0;
    while code <= 0x10FFFF {
        if let Some(c) = char::from_u32(code) {
            assert_eq!(is_space_char(c), c.is_whitespace());
        }
        code += 1;
    }
}

#[test]
fn trimming_removes_only_the_outer_white_space() {
    assert_eq!(trim("  -O2  -g \n"), "-O2  -g");
    assert_eq!(trim_end("name \r\n"), "name");
    assert_eq!(trim_end("  name"), "  name");
    assert_eq!(trim_start(" \t name "), "name ");
    assert_eq!(trim(""), "");
    assert_eq!(trim(" \t\n"), "");
    assert_eq!(trim_end(" \t\n"), "");
    assert_eq!(trim_start(" \t\n"), "");
    assert_eq!(trim("\u{3000}é\u{A0}"), "é");
}

#[test]
fn trimming_agrees_with_std() {
    for s in ["", " ", "a", " a", "a ", " a b ", "\n\n", "\t-lfoo\t", "x\u{2003}", "\u{2003}x"] {
        assert_eq!(trim(s), s.trim());
        assert_eq!(trim_end(s), s.trim_end());
        assert_eq!(trim_start(s), s.trim_start());
    }
}

#[test]
fn splitting_keeps_empty_pieces() {
    assert_eq!(split_on("-j4 -k", ' '), texts(&["-j4", "-k"]));
    assert_eq!(split_on("", ' '), texts(&[""]));
    assert_eq!(split_on(" ", ' '), texts(&["", ""]));
    assert_eq!(split_on("a  b", ' '), texts(&["a", "", "b"]));
    assert_eq!(split_on("a\nb\n", '\n'), texts(&["a", "b", ""]));
    assert_eq!(split_on("archive.tar.gz", '.'), texts(&["archive", "tar", "gz"]));
}

#[test]
fn splitting_agrees_with_std() {
    for s in ["", "a", ",", ",,", "a,b", ",a,", "a,,b,", "é,ü"] {
        let expected: Vec<String> = s.split(',').map(|p| p.to_string()).collect();
        assert_eq!(split_on(s, ','), expected);
    }
}

#[test]
fn joining_puts_the_separator_between_neighbours() {
    assert_eq!(join(&texts(&["a", "b", "c"]), ", "), "a, b, c");
    assert_eq!(join(&texts(&["a"]), ", "), "a");
    assert_eq!(join(&texts(&[]), ", "), "");
    assert_eq!(join(&texts(&["", ""]), "+"), "+");
}

#[test]
fn decimal_notation() {
    assert_eq!(decimal_text(0), "0");
    assert_eq!(decimal_text(7), "7");
    assert_eq!(decimal_text(10), "10");
    assert_eq!(decimal_text(4096), "4096");
    assert_eq!(decimal_text(u64::MAX), "18446744073709551615");
}

#[test]
fn last_occurrence_of_a_character() {
    assert_eq!(find_last("a.b.c", '.'), Some(3));
    assert_eq!(find_last(".hidden", '.'), Some(0));
    assert_eq!(find_last("plain", '.'), None);
    assert_eq!(find_last("", '.'), None);
    assert_eq!(find_last("é.ü", '.'), Some(1));
}

#[test]
fn prefixes_and_suffixes() {
    assert!(has_prefix("src/main.c", "src/"));
    assert!(!has_prefix("include/main.h", "src/"));
    assert!(!has_prefix("sr", "src/"));
    assert!(has_prefix("anything", ""));
    assert!(has_suffix("main.cpp", ".cpp"));
    assert!(!has_suffix("main.cpp", ".c"));
    assert!(!has_suffix("c", ".c"));
    assert!(has_suffix("", ""));
    assert_eq!(strip_prefix("src/a/b.c", "src/"), Some("a/b.c"));
    assert_eq!(strip_prefix("a/b.c", "src/"), None);
    assert_eq!(strip_prefix("src/", "src/"), Some(""));
}

#[test]
fn equal_texts() {
    assert!(same_text("debug", "debug"));
    assert!(!same_text("debug", "Debug"));
    assert!(!same_text("debug", "debug "));
    assert!(same_text("", ""));
}
