use qcli::words::{is_space_char, split_words};

fn strings(words: &[&str]) -> Vec<String> {
    words.iter().map(|w| w.to_string()).collect()
}

#[test]
fn empty_line_has_no_words() {
    assert_eq!(split_words(""), Vec::<String>::new());
}

#[test]
fn blank_line_has_no_words() {
    assert_eq!(split_words(" \t  \n"), Vec::<String>::new());
}

#[test]
fn one_word() {
    assert_eq!(split_words("quit"), strings(&["quit"]));
}

#[test]
fn padding_is_dropped() {
    assert_eq!(split_words("  quit  "), strings(&["quit"]));
    assert_eq!(split_words("quit "), strings(&["quit"]));
    assert_eq!(split_words("\tquit"), strings(&["quit"]));
}

#[test]
fn words_keep_their_order() {
    assert_eq!(
        split_words("http put https://example.test/a hello world"),
        strings(&["http", "put", "https://example.test/a", "hello", "world"])
    );
}

#[test]
fn runs_of_white_space_separate_once() {
    assert_eq!(split_words("a   b\t\tc \n d"), strings(&["a", "b", "c", "d"]));
}

#[test]
fn unicode_white_space_separates() {
    assert_eq!(
        split_words("a\u{00A0}b\u{3000}c\u{2003}d\u{0085}e"),
        strings(&["a", "b", "c", "d", "e"])
    );
}

#[test]
fn words_may_hold_any_other_character() {
    assert_eq!(split_words("héllo wörld ☃"), strings(&["héllo", "wörld", "☃"]));
    assert_eq!(split_words("\u{200B}x"), strings(&["\u{200B}x"]));
}

#[test]
fn quotes_do_not_group() {
    assert_eq!(split_words("\"hello world\""), strings(&["\"hello", "world\""]));
}

#[test]
fn white_space_is_what_std_calls_white_space() {
    let mut code: u32 = 0;
    while code <= 0x10FFFF {
        if let Some(c) = char::from_u32(code) {
            assert_eq!(is_space_char(c), c.is_whitespace(), "U+{:04X}", code);
        }
        code += 1;
    }
}

#[test]
fn splitting_agrees_with_std() {
    let lines = [
        "",
        " ",
        "quit",
        "  http   get  x ",
        "a\tb\nc\rd\u{000B}e\u{000C}f",
        "\u{1680}x\u{2028}y\u{2029}z\u{202F}w\u{205F}",
        "tail ",
        " head",
    ];
    for line in lines.iter() {
        let expected: Vec<String> = line.split_whitespace().map(|w| w.to_string()).collect();
        assert_eq!(split_words(line), expected);
    }
}
