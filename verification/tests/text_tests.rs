use sessioncast::text::{
    ascii_lower_exec, chars_of, is_whitespace, lines_of, parse_usize_exec, replace_char_exec, replace_str_exec, split_at_char,
    string_of, trim_chars, usize_to_string,
};

fn s(v: &Vec<char>) -> String {
    v.iter().collect()
}

#[test]
fn lines_match_std() {
    for input in ["a\nb", "a\r\nb\n", "", "\n", "x\n\ny", "tail\r", "a\n\r\n"] {
        let ours: Vec<String> = lines_of(&chars_of(input)).iter().map(s).collect();
        let std: Vec<String> = input.lines().map(|l| l.to_string()).collect();
        assert_eq!(ours, std, "input {:?}", input);
    }
}

#[test]
fn trim_matches_std() {
    for input in ["  a b  ", "\t\n", "", "x", "\u{3000}y\u{a0}", " \r\nz\n"] {
        assert_eq!(s(&trim_chars(&chars_of(input))), input.trim());
    }
}

#[test]
fn split_keeps_empty_pieces() {
    let parts: Vec<String> = split_at_char(&chars_of("a::b:"), ':').iter().map(s).collect();
    assert_eq!(parts, vec!["a", "", "b", ""]);
    let one: Vec<String> = split_at_char(&chars_of(""), ':').iter().map(s).collect();
    assert_eq!(one, vec![""]);
}

#[test]
fn parse_usize_matches_std() {
    for input in ["0", "42", "+7", "-1", "", "+", "12a", "007", "18446744073709551615", "18446744073709551616"] {
        assert_eq!(parse_usize_exec(&chars_of(input)), input.parse::<usize>().ok(), "input {:?}", input);
    }
}

#[test]
fn decimal_formatting() {
    assert_eq!(usize_to_string(0), "0");
    assert_eq!(usize_to_string(120), "120");
    assert_eq!(usize_to_string(usize::MAX), usize::MAX.to_string());
}

#[test]
fn replacing_characters_and_patterns() {
    let r = replace_char_exec(&chars_of("a\nb\n"), '\n', &chars_of("\r\n"));
    assert_eq!(s(&r), "a\r\nb\r\n");
    let r = replace_str_exec(&chars_of("x.git.gity"), &chars_of(".git"), &chars_of(""));
    assert_eq!(s(&r), "x.git.gity".replace(".git", ""));
    assert_eq!(string_of(&chars_of("héllo")), "héllo");
}

#[test]
fn whitespace_matches_std_on_every_char() {
    for c in (0u32..=0x10FFFF).filter_map(char::from_u32) {
        assert_eq!(is_whitespace(c), c.is_whitespace(), "{:?}", c);
    }
}

#[test]
fn ascii_lowering_matches_std() {
    for c in ['A', 'Z', 'a', '0', 'É', '_', 'Ω'] {
        assert_eq!(ascii_lower_exec(c), c.to_ascii_lowercase());
    }
}
