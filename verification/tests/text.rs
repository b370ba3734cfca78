use ermete::text::{
    contains_text, is_whitespace, push_decimal, same_text, split_char, split_lines,
    split_whitespace, strip_trailing, trim_text,
};

#[test]
fn trim_matches_std() {
    for s in ["", "   ", "  a b  ", "\t\nx\r\n", "\u{3000}y\u{a0}", "no-space"] {
        assert_eq!(trim_text(s), s.trim());
    }
}

#[test]
fn split_whitespace_matches_std() {
    for s in ["", " ", "Volume: 0.40", "  a \t b\n\nc  ", "x", "\u{2003}a\u{2003}b"] {
        let ours = split_whitespace(s);
        let theirs: Vec<&str> = s.split_whitespace().collect();
        assert_eq!(ours, theirs);
    }
}

#[test]
fn split_char_matches_std() {
    for s in ["", ",", "a,b,,c", "intel_backlight,backlight,1200,50%,2400", "a,"] {
        let ours = split_char(s, ',');
        let theirs: Vec<&str> = s.split(',').collect();
        assert_eq!(ours, theirs);
    }
}

#[test]
fn lines_match_std() {
    for s in ["", "\n", "a", "a\n", "a\r\nb", "a\r\n", "a\n\nb\n", "a\r", "\r\n\r\n", "x\ny\r"] {
        let ours = split_lines(s);
        let theirs: Vec<&str> = s.lines().collect();
        assert_eq!(ours, theirs, "input {:?}", s);
    }
}

#[test]
fn contains_matches_std() {
    let cases = [("hello", "ell"), ("hello", ""), ("", ""), ("", "a"), ("abc", "abcd"), ("aab", "ab"), ("WindowOpened", "Window")];
    for (h, n) in cases {
        assert_eq!(contains_text(h, n), h.contains(n));
    }
}

#[test]
fn strip_trailing_matches_std() {
    for s in ["50%", "50%%", "%", "", "5%0"] {
        assert_eq!(strip_trailing(s, '%'), s.trim_end_matches('%'));
    }
}

#[test]
fn whitespace_set_matches_std() {
    for u in 0u32..0x3100 {
        if let Some(c) = char::from_u32(u) {
            assert_eq!(is_whitespace(c), c.is_whitespace(), "char {:#x}", u);
        }
    }
}

#[test]
fn same_text_compares_characters() {
    assert!(same_text("abc", "abc"));
    assert!(!same_text("abc", "abd"));
    assert!(!same_text("abc", "ab"));
    assert!(same_text("", ""));
}

#[test]
fn decimal_numerals() {
    for n in [0u32, 7, 10, 42, 100, 4294967295] {
        let mut s = String::from("n=");
        push_decimal(&mut s, n);
        assert_eq!(s, format!("n={}", n));
    }
}
