use totp_generator::text::{char_digit, char_is_space, pop_char, repeated, trim};

#[test]
fn trim_removes_white_space_at_both_ends() {
    assert_eq!(trim("  abc \n"), "abc");
    assert_eq!(trim("abc"), "abc");
    assert_eq!(trim("a b"), "a b");
    assert_eq!(trim(" \t\r\n"), "");
    assert_eq!(trim(""), "");
    assert_eq!(trim("\u{a0}x\u{3000}"), "x");
    assert_eq!(trim("\u{2003}é é\u{2028}"), "é é");
    assert_eq!(trim("-\n"), "-");
    assert_eq!(trim("\u{200b}x"), "\u{200b}x");
}

#[test]
fn trim_agrees_with_std() {
    for code in 0u32..0x3100 {
        if let Some(c) = char::from_u32(code) {
            assert_eq!(char_is_space(c), c.is_whitespace(), "for {:#x}", code);
        }
    }
    for text in ["", " ", "a", " a", "a ", "\u{1680}a b\u{85}", "\u{feff}a", "\u{180e}a"] {
        assert_eq!(trim(text), text.trim(), "for {:?}", text);
    }
}

#[test]
fn pop_char_takes_one_character() {
    let mut s = "abé".to_string();
    pop_char(&mut s);
    assert_eq!(s, "ab");
    pop_char(&mut s);
    pop_char(&mut s);
    assert_eq!(s, "");
    pop_char(&mut s);
    assert_eq!(s, "");
}

#[test]
fn repeated_characters() {
    assert_eq!(repeated('*', 0), "");
    assert_eq!(repeated('*', 3), "***");
    assert_eq!(repeated('é', 2), "éé");
}

#[test]
fn digits_of_characters() {
    assert_eq!(char_digit('0'), Some(0));
    assert_eq!(char_digit('9'), Some(9));
    assert_eq!(char_digit('/'), None);
    assert_eq!(char_digit(':'), None);
    assert_eq!(char_digit('a'), None);
    assert_eq!(char_digit('٣'), None);
}
