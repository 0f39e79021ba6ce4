use inmonea_backend::text::{
    chars_of, contains, is_whitespace, join_from, owned, replace, split_whitespace, starts_with,
    str_eq, string_of, string_of_range, trim, u64_to_text,
};

#[test]
fn replace_every_occurrence() {
    assert_eq!(replace("a b  c", " ", "-"), "a-b--c");
    assert_eq!(replace("RENT_RENT_x", "RENT_", ""), "x");
    assert_eq!(replace("aaa", "aa", "b"), "ba");
    assert_eq!(replace("", "x", "y"), "");
    assert_eq!(replace("héllo wörld", "ö", "o"), "héllo world");
}

#[test]
fn trim_like_std() {
    for s in ["  a b  ", "\t\nx\r\n", "", "   ", "no", " \u{3000}y\u{a0}"] {
        assert_eq!(trim(s), s.trim());
    }
}

#[test]
fn split_whitespace_like_std() {
    for s in ["  Juan  Carlos\tPérez ", "", "   ", "one", "a\u{2003}b"] {
        let expected: Vec<String> = s.split_whitespace().map(|w| w.to_string()).collect();
        assert_eq!(split_whitespace(s), expected);
    }
}

#[test]
fn join_from_an_index() {
    let ws: Vec<String> = vec!["a".into(), "b".into(), "c".into()];
    assert_eq!(join_from(&ws, 0, " "), "a b c");
    assert_eq!(join_from(&ws, 1, ", "), "b, c");
    assert_eq!(join_from(&ws, 3, " "), "");
}

#[test]
fn predicates() {
    assert!(contains("tenants_cuit_key violated", "cuit"));
    assert!(!contains("abc", "abd"));
    assert!(contains("abc", ""));
    assert!(starts_with("HTTP 409 conflict", "HTTP 409"));
    assert!(!starts_with("HTTP", "HTTP 409"));
    assert!(str_eq("a", "a"));
    assert!(!str_eq("a", "A"));
    assert!(is_whitespace(' ') && is_whitespace('\u{2028}') && !is_whitespace('x'));
}

#[test]
fn decimal_text_of_numbers() {
    for n in [0u64, 7, 10, 99, 1000, 123456789, u64::MAX] {
        assert_eq!(u64_to_text(n), n.to_string());
    }
}

#[test]
fn characters_round_trip() {
    let v = chars_of("añb");
    assert_eq!(v, vec!['a', 'ñ', 'b']);
    assert_eq!(string_of(&v), "añb");
    assert_eq!(string_of_range(&v, 1, 3), "ñb");
    assert_eq!(owned("x"), "x".to_string());
}
