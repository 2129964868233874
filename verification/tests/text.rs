use stack::text::{
    chars_of, find, is_whitespace, lines, split, starts_with, starts_with_str, trim, trim_span,
};

fn chars(s: &str) -> Vec<char> {
    s.chars().collect()
}

fn pieces(s: &str, spans: Vec<stack::text::Span>) -> Vec<String> {
    let all = chars(s);
    spans.iter().map(|span| all[span.start..span.end].iter().collect()).collect()
}

#[test]
fn chars_of_gives_every_character() {
    assert_eq!(chars_of(""), Vec::<char>::new());
    assert_eq!(chars_of("aé✓\n"), vec!['a', 'é', '✓', '\n']);
}

#[test]
fn whitespace_is_what_std_calls_whitespace() {
    for code in 0..=0x3100u32 {
        if let Some(c) = char::from_u32(code) {
            assert_eq!(is_whitespace(c), c.is_whitespace(), "U+{:04X}", code);
        }
    }
    assert!(!is_whitespace('\u{feff}'));
    assert!(!is_whitespace('\u{10ffff}'));
}

#[test]
fn trim_agrees_with_std() {
    for s in ["", " ", "a", " a", "a ", "  a b  ", "\t\n x \r\n", "\u{3000}é\u{a0}", "   ", "a\u{200b} "] {
        let trimmed: String = trim(&chars(s)).iter().collect();
        assert_eq!(trimmed, s.trim(), "{:?}", s);
    }
    let span = trim_span(&chars("  ab "));
    assert_eq!((span.start, span.end), (2, 4));
}

#[test]
fn find_gives_the_first_position_or_the_length() {
    assert_eq!(find(&chars("a,b,c"), ','), 1);
    assert_eq!(find(&chars(",,"), ','), 0);
    assert_eq!(find(&chars("abc"), ','), 3);
    assert_eq!(find(&chars(""), ','), 0);
}

#[test]
fn split_agrees_with_std() {
    for s in ["", ",", "a", "a,b", ",a,,b,", "a,b,c", ",,,"] {
        let expected: Vec<String> = s.split(',').map(|p| p.to_string()).collect();
        assert_eq!(pieces(s, split(&chars(s), ',')), expected, "{:?}", s);
    }
}

#[test]
fn lines_agree_with_std() {
    for s in [
        "", "\n", "a", "a\n", "a\nb", "a\n\nb\n", "\n\na", "a\r\nb\r\n", "a\r", "a\r\n\r", "\r\n",
        "a\r\r\n", "\r", "a\n\r\nb",
    ] {
        let expected: Vec<String> = s.lines().map(|p| p.to_string()).collect();
        assert_eq!(pieces(s, lines(&chars(s))), expected, "{:?}", s);
    }
}

#[test]
fn starts_with_compares_the_beginning() {
    assert!(starts_with(&chars("Pull request: 1"), &chars("Pull request:")));
    assert!(starts_with(&chars("abc"), &chars("")));
    assert!(starts_with(&chars("abc"), &chars("abc")));
    assert!(!starts_with(&chars("ab"), &chars("abc")));
    assert!(!starts_with(&chars("xbc"), &chars("abc")));
    assert!(starts_with_str(&chars("Depends on: 1"), "Depends on:"));
    assert!(starts_with_str(&chars(""), ""));
    assert!(!starts_with_str(&chars("Depends on"), "Depends on:"));
    assert!(!starts_with_str(&chars("depends on: 1"), "Depends on:"));
}
