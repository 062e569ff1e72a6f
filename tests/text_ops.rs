use stylo_compute::text::{
    chars_of, contains_exec, decimal_exec, find_from_exec, join_exec, lines_exec,
    second_field_exec, split_once_exec, string_from_chars, trim_exec, words_exec,
};

fn s(cs: &[char]) -> String {
    cs.iter().collect()
}

#[test]
fn lines_split_at_newlines_and_crlf() {
    let ls = lines_exec(&chars_of("foo\r\nbar\n\nbaz\r"));
    let got: Vec<String> = ls.iter().map(|l| s(l)).collect();
    assert_eq!(got, vec!["foo", "bar", "", "baz\r"]);
}

#[test]
fn lines_of_empty_and_trailing_newline() {
    assert!(lines_exec(&chars_of("")).is_empty());
    let got: Vec<String> = lines_exec(&chars_of("a\n")).iter().map(|l| s(l)).collect();
    assert_eq!(got, vec!["a"]);
}

#[test]
fn lines_follow_std() {
    for t in ["\r\n", "\n\n", "\r", "a\r\r\n", "x\ny", "\nlead", "tail\r\n"] {
        let got: Vec<String> = lines_exec(&chars_of(t)).iter().map(|l| s(l)).collect();
        let expected: Vec<String> = t.lines().map(|l| l.to_string()).collect();
        assert_eq!(got, expected, "input {:?}", t);
    }
}

#[test]
fn find_and_contains() {
    let hay = chars_of("abcabc");
    assert_eq!(find_from_exec(&hay, &chars_of("bc"), 0), Some(1));
    assert_eq!(find_from_exec(&hay, &chars_of("bc"), 2), Some(4));
    assert_eq!(find_from_exec(&hay, &chars_of("x"), 0), None);
    assert!(contains_exec(&hay, &chars_of("cab")));
    assert!(!contains_exec(&hay, &chars_of("cb")));
}

#[test]
fn second_field_matches_split_nth() {
    for (line, pat) in [("x:M:a:M:b", ":M:"), ("M:rest", "M:"), ("none", "M:"), ("aMbMcM", "M")] {
        let expected = line.split(pat).nth(1).map(|t| t.to_string());
        let got = second_field_exec(&chars_of(line), &chars_of(pat)).map(|f| s(&f));
        assert_eq!(got, expected);
    }
}

#[test]
fn split_once_at_first_colon() {
    let (a, b) = split_once_exec(&chars_of("id-1:{\"a\":1}"), ':').unwrap();
    assert_eq!(s(&a), "id-1");
    assert_eq!(s(&b), "{\"a\":1}");
    assert!(split_once_exec(&chars_of("nocolon"), ':').is_none());
}

#[test]
fn trim_and_words_follow_std() {
    for t in ["  a b \t", "", "   ", "x", "\u{3000}y\u{a0}"] {
        assert_eq!(s(&trim_exec(&chars_of(t))), t.trim());
        let ws: Vec<String> = words_exec(&chars_of(t)).iter().map(|w| s(w)).collect();
        let expected: Vec<String> = t.split_whitespace().map(|w| w.to_string()).collect();
        assert_eq!(ws, expected);
    }
}

#[test]
fn join_and_decimal() {
    let parts = vec!["a".to_string(), "b".to_string(), "c".to_string()];
    assert_eq!(join_exec(&parts, "\n"), "a\nb\nc");
    assert_eq!(join_exec(&Vec::new(), "\n"), "");
    assert_eq!(decimal_exec(0), "0");
    assert_eq!(decimal_exec(1207), "1207");
    assert_eq!(string_from_chars(&['h', 'i']), "hi");
}
