use lidar_batch::text::{
    char_ascii_lower, char_is_quote, char_is_whitespace, chars_equal, copy_range, find_text,
    lowercase_chars, matches_at, push_chars, push_decimal, push_joined, push_str, remove_char_in,
    remove_text, replace_char_in, split_chars, strip_quotes, to_chars, trim_chars,
};

fn chars(s: &str) -> Vec<char> {
    s.chars().collect()
}

#[test]
fn characters_of_a_string() {
    assert_eq!(to_chars("añ€😀"), vec!['a', 'ñ', '€', '😀']);
    assert_eq!(to_chars(""), Vec::<char>::new());
}

#[test]
fn quotes_are_double_and_single() {
    assert!(char_is_quote('"'));
    assert!(char_is_quote('\''));
    assert!(!char_is_quote('`'));
    assert_eq!(strip_quotes(&chars("\"a'b\"c")), chars("abc"));
}

#[test]
fn white_space_is_what_the_standard_library_trims() {
    for code in 0..0x11_0000u32 {
        if let Some(c) = char::from_u32(code) {
            assert_eq!(char_is_whitespace(c), c.is_whitespace(), "U+{:04X}", code);
        }
    }
}

#[test]
fn trimming_takes_white_space_and_quotes_off_both_ends() {
    for s in [
        "", " ", "a", "  a b  ", "\t\na\r\n", "\u{a0}x\u{3000}", " \u{200b} ", "\"a\"", "' a'b '",
        "\" \"", "a\"", "'",
    ] {
        let expected = s.trim_matches(|c: char| c.is_whitespace() || c == '"' || c == '\'');
        assert_eq!(trim_chars(&chars(s)), chars(expected));
    }
    assert_eq!(trim_chars(&chars(" 'it's' ")), chars("it's"));
}

#[test]
fn lower_case_touches_only_ascii_letters() {
    assert_eq!(char_ascii_lower('A'), 'a');
    assert_eq!(char_ascii_lower('Z'), 'z');
    assert_eq!(char_ascii_lower('a'), 'a');
    assert_eq!(char_ascii_lower('@'), '@');
    assert_eq!(char_ascii_lower('['), '[');
    assert_eq!(char_ascii_lower('É'), 'É');
    assert_eq!(lowercase_chars(&chars("--InPuTs É1")), chars("--inputs É1"));
}

#[test]
fn splitting_agrees_with_the_standard_library() {
    for s in ["", "a", ";", "a;b", ";;", "a;;b;", ";a"] {
        let expected: Vec<Vec<char>> = s.split(';').map(chars).collect();
        assert_eq!(split_chars(&chars(s), ';'), expected);
    }
}

#[test]
fn ranges_and_equality() {
    assert_eq!(copy_range(&chars("abcdef"), 2, 4), chars("cd"));
    assert_eq!(copy_range(&chars("abc"), 3, 3), chars(""));
    assert!(chars_equal(&chars("abc"), &chars("abc")));
    assert!(!chars_equal(&chars("abc"), &chars("abd")));
    assert!(!chars_equal(&chars("abc"), &chars("ab")));
    assert!(chars_equal(&chars(""), &chars("")));
}

#[test]
fn decimal_numerals() {
    for n in [0usize, 7, 10, 99, 100, 12345, usize::MAX] {
        let mut out = chars("n=");
        push_decimal(&mut out, n);
        assert_eq!(out, chars(&format!("n={}", n)));
    }
}

#[test]
fn appending_text() {
    let mut out = chars("ab");
    push_str(&mut out, "cd€");
    push_chars(&mut out, &chars("ef"));
    assert_eq!(out, chars("abcd€ef"));
    let mut out = chars("[");
    push_joined(&mut out, &vec![chars("a"), chars(""), chars("bc")], ',');
    assert_eq!(out, chars("[a,,bc"));
    let mut out = chars("[");
    push_joined(&mut out, &Vec::new(), ',');
    assert_eq!(out, chars("["));
}

#[test]
fn finding_text() {
    assert!(matches_at(&chars("abcabc"), &chars("bc"), 1));
    assert!(!matches_at(&chars("abcabc"), &chars("bc"), 2));
    assert!(!matches_at(&chars("abc"), &chars("bcd"), 1));
    assert!(matches_at(&chars("abc"), &chars(""), 3));
    assert!(find_text(&chars("tool.exe"), &chars(".exe")));
    assert!(!find_text(&chars("tool.ex"), &chars(".exe")));
    assert!(find_text(&chars(""), &chars("")));
    assert!(!find_text(&chars(""), &chars("a")));
}

#[test]
fn removing_text_agrees_with_the_standard_library() {
    for (s, p) in [
        ("aaa", "aa"),
        ("abcabc", "bc"),
        ("abc", ""),
        ("", "a"),
        ("ababab", "aba"),
        ("/home/user/tool.exe", "/home/user"),
        ("xx.exe.exe", ".exe"),
    ] {
        assert_eq!(remove_text(&chars(s), &chars(p)), chars(&s.replace(p, "")));
    }
}

#[test]
fn removing_and_replacing_characters() {
    assert_eq!(remove_char_in(&chars("a.b..c"), '.'), chars("abc"));
    assert_eq!(remove_char_in(&chars("..."), '.'), chars(""));
    assert_eq!(replace_char_in(&chars("*a*b"), '*', '/'), chars("/a/b"));
    assert_eq!(replace_char_in(&chars("ab"), '*', '/'), chars("ab"));
}
