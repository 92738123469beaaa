use weather::text::{join, same_text, split_fields, starts_with, text_after, text_lines, trim};

fn owned(parts: &[&str]) -> Vec<String> {
    parts.iter().map(|s| s.to_string()).collect()
}

#[test]
fn fields_are_cut_at_every_separator() {
    assert_eq!(split_fields("", ':'), owned(&[""]));
    assert_eq!(split_fields("abc", ':'), owned(&["abc"]));
    assert_eq!(split_fields("a:b", ':'), owned(&["a", "b"]));
    assert_eq!(split_fields("a:", ':'), owned(&["a", ""]));
    assert_eq!(split_fields(":a", ':'), owned(&["", "a"]));
    assert_eq!(split_fields("a::b", ':'), owned(&["a", "", "b"]));
    assert_eq!(split_fields("::", ':'), owned(&["", "", ""]));
    assert_eq!(split_fields("Київ:Дніпро", ':'), owned(&["Київ", "Дніпро"]));
    for text in ["", "a", "a:b:c", ":x:", "::::"] {
        let expected: Vec<String> = text.split(':').map(|s| s.to_string()).collect();
        assert_eq!(split_fields(text, ':'), expected);
    }
}

#[test]
fn trim_removes_white_space_at_both_ends() {
    assert_eq!(trim(""), "");
    assert_eq!(trim("   "), "");
    assert_eq!(trim("key"), "key");
    assert_eq!(trim("  key\n"), "key");
    assert_eq!(trim("\t a b \r\n"), "a b");
    assert_eq!(trim("\u{a0}x\u{2003}"), "x");
    for text in ["", " ", " a", "a ", " a b ", "\n\n", "ключ\n"] {
        assert_eq!(trim(text), text.trim());
    }
}

#[test]
fn join_puts_the_separator_between() {
    assert_eq!(join(&owned(&[]), " "), "");
    assert_eq!(join(&owned(&["a"]), " "), "a");
    assert_eq!(join(&owned(&["a", "b", "c"]), " "), "a b c");
    assert_eq!(join(&owned(&["a", "", "c"]), ", "), "a, , c");
}

#[test]
fn lines_end_at_line_feeds() {
    assert_eq!(text_lines(""), owned(&[]));
    assert_eq!(text_lines("a"), owned(&["a"]));
    assert_eq!(text_lines("a\n"), owned(&["a"]));
    assert_eq!(text_lines("a\nb"), owned(&["a", "b"]));
    assert_eq!(text_lines("a\r\nb\r\n"), owned(&["a", "b"]));
    assert_eq!(text_lines("a\n\nb"), owned(&["a", "", "b"]));
    assert_eq!(text_lines("\n"), owned(&[""]));
    assert_eq!(text_lines("a\rb\n"), owned(&["a\rb"]));
    assert_eq!(text_lines("a\r"), owned(&["a\r"]));
    assert_eq!(text_lines("a\r\r\n"), owned(&["a\r"]));
    for text in ["", "x", "x\n", "x\ny", "x\r\ny\r\n", "\n\n", "x\r", "\r\n", "x\n\r"] {
        let expected: Vec<String> = text.lines().map(|s| s.to_string()).collect();
        assert_eq!(text_lines(text), expected);
    }
}

#[test]
fn prefixes_and_rests() {
    assert!(starts_with("date=now", "date="));
    assert!(starts_with("date=", "date="));
    assert!(starts_with("anything", ""));
    assert!(!starts_with("date", "date="));
    assert!(!starts_with("Date=now", "date="));
    assert!(!starts_with("", "x"));
    assert_eq!(text_after("date=now", 5), "now");
    assert_eq!(text_after("date=", 5), "");
    assert_eq!(text_after("Київ", 2), "їв");
    assert!(same_text("Київ", "Київ"));
    assert!(!same_text("Київ", "Киів"));
    assert!(!same_text("a", "ab"));
    assert!(same_text("", ""));
}
