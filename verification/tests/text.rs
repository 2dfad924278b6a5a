use lingcode::text::{
    chars_of, find_chars, lex_less, split_lines, split_words, trim_str, u64_to_string,
};

fn lines(s: &str) -> Vec<String> {
    split_lines(&chars_of(s)).into_iter().map(|l| l.into_iter().collect()).collect()
}

fn words(s: &str) -> Vec<String> {
    split_words(&chars_of(s)).into_iter().map(|l| l.into_iter().collect()).collect()
}

#[test]
fn lines_split_like_str_lines() {
    for s in ["", "a", "a\n", "a\nb", "a\r\nb\r\n", "\n\n", "a\rb\n", "x\r", "a\n\nb"] {
        let expected: Vec<String> = s.lines().map(|l| l.to_string()).collect();
        assert_eq!(lines(s), expected, "{s:?}");
    }
}

#[test]
fn words_split_like_split_whitespace() {
    for s in ["", "  ", "a b", " a\tb \n c ", "x\u{2003}y", "emulator-5554\tdevice product:sdk"] {
        let expected: Vec<String> = s.split_whitespace().map(|w| w.to_string()).collect();
        assert_eq!(words(s), expected, "{s:?}");
    }
}

#[test]
fn trim_like_str_trim() {
    for s in ["", "  a b  ", "\u{a0}x\u{3000}", "\n\t", "x"] {
        assert_eq!(trim_str(s), s.trim());
    }
}

#[test]
fn find_like_str_find() {
    let hay = chars_of("abcabd");
    assert_eq!(find_chars(&hay, &chars_of("abd")), Some(3));
    assert_eq!(find_chars(&hay, &chars_of("x")), None);
    assert_eq!(find_chars(&hay, &chars_of("")), Some(0));
}

#[test]
fn decimal_and_order() {
    assert_eq!(u64_to_string(0), "0");
    assert_eq!(u64_to_string(1234567890), "1234567890");
    assert_eq!(u64_to_string(u64::MAX), u64::MAX.to_string());
    assert!(lex_less(&chars_of("33.0.1"), &chars_of("34")));
    assert!(!lex_less(&chars_of("b"), &chars_of("a")));
    assert!(lex_less(&chars_of("a"), &chars_of("ab")));
}
