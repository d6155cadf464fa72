use sandbox_exec::text::{
    clone_strings, digit_to_char, join_strings, replace_char_in, split_text, str_contains,
    to_ascii_lower, to_chars, usize_to_decimal,
};

fn strings(list: &[&str]) -> Vec<String> {
    list.iter().map(|s| s.to_string()).collect()
}

#[test]
fn joining() {
    assert_eq!(join_strings(&strings(&["a", "b", "c"]), ", "), "a, b, c");
    assert_eq!(join_strings(&strings(&["a"]), ", "), "a");
    assert_eq!(join_strings(&strings(&[]), ", "), "");
    assert_eq!(join_strings(&strings(&["", ""]), "-"), "-");
}

#[test]
fn decimal_numbers() {
    assert_eq!(usize_to_decimal(0), "0");
    assert_eq!(usize_to_decimal(7), "7");
    assert_eq!(usize_to_decimal(10), "10");
    assert_eq!(usize_to_decimal(1234567890), "1234567890");
    assert_eq!(usize_to_decimal(usize::MAX), usize::MAX.to_string());
    for d in 0..10u8 {
        assert_eq!(digit_to_char(d), (b'0' + d) as char);
    }
}

#[test]
fn replacing() {
    assert_eq!(replace_char_in("a\nb\n", '\n', " "), "a b ");
    assert_eq!(replace_char_in("aaa", 'a', "bc"), "bcbcbc");
    assert_eq!(replace_char_in("xyz", 'a', "b"), "xyz");
    assert_eq!(replace_char_in("a-b", '-', ""), "ab");
}

#[test]
fn searching() {
    assert!(str_contains("C:\\Windows\\cmd.exe", "cmd"));
    assert!(str_contains("abc", ""));
    assert!(str_contains("", ""));
    assert!(str_contains("abc", "abc"));
    assert!(str_contains("ababc", "abc"));
    assert!(!str_contains("abc", "abcd"));
    assert!(!str_contains("abc", "ac"));
    assert!(!str_contains("", "a"));
}

#[test]
fn characters() {
    assert_eq!(to_chars("h\u{e9}!"), vec!['h', '\u{e9}', '!']);
    assert_eq!(to_ascii_lower('A'), 'a');
    assert_eq!(to_ascii_lower('Z'), 'z');
    assert_eq!(to_ascii_lower('a'), 'a');
    assert_eq!(to_ascii_lower('['), '[');
    assert_eq!(to_ascii_lower('\u{c9}'), '\u{c9}');
    let mut c = 0u32;
    while c < 0x250 {
        if let Some(ch) = char::from_u32(c) {
            assert_eq!(to_ascii_lower(ch), ch.to_ascii_lowercase());
        }
        c += 1;
    }
}

#[test]
fn splitting() {
    assert_eq!(split_text("a,b,,c", ','), strings(&["a", "b", "", "c"]));
    assert_eq!(split_text("", ','), strings(&[""]));
    assert_eq!(split_text(",", ','), strings(&["", ""]));
    assert_eq!(split_text("a,b,,c", ','), "a,b,,c".split(',').map(String::from).collect::<Vec<_>>());
}

#[test]
fn lists() {
    let a = strings(&["x", "y"]);
    assert_eq!(clone_strings(&a), a);
}
