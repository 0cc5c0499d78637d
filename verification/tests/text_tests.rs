use cross_section::text::{
    chars_of, decimal_text, flag_text, i32_text, parse_flag, parse_i32, parse_plain_flag,
    parse_usize, read_flag, same_text, usize_text,
};

const INTEGER_SAMPLES: [&str; 38] = [
    "",
    "0",
    "7",
    "42",
    "+7",
    "-7",
    "+",
    "-",
    "+-1",
    "--1",
    "++1",
    "-0",
    "+0",
    "007",
    "000000000000000000000000000000001",
    "1000000",
    "2147483647",
    "2147483648",
    "-2147483648",
    "-2147483649",
    "4294967295",
    "4294967296",
    "18446744073709551615",
    "18446744073709551616",
    "99999999999999999999999999",
    "-99999999999999999999999999",
    "1_000",
    " 1",
    "1 ",
    "1.0",
    "1e3",
    "0x10",
    "a",
    "12a",
    "\u{663}",
    "\u{ff11}",
    "1\n",
    "+1+",
];

#[test]
fn parse_usize_agrees_with_std() {
    for s in INTEGER_SAMPLES {
        assert_eq!(parse_usize(s), s.parse::<usize>().ok(), "input {:?}", s);
    }
}

#[test]
fn parse_i32_agrees_with_std() {
    for s in INTEGER_SAMPLES {
        assert_eq!(parse_i32(s), s.parse::<i32>().ok(), "input {:?}", s);
    }
}

#[test]
fn parse_usize_exact_values() {
    assert_eq!(parse_usize("1000000"), Some(1_000_000));
    assert_eq!(parse_usize("+12"), Some(12));
    assert_eq!(parse_usize("-12"), None);
    assert_eq!(parse_usize(""), None);
    assert_eq!(parse_usize(&usize::MAX.to_string()), Some(usize::MAX));
}

#[test]
fn parse_i32_exact_values() {
    assert_eq!(parse_i32("-2147483648"), Some(i32::MIN));
    assert_eq!(parse_i32("2147483647"), Some(i32::MAX));
    assert_eq!(parse_i32("2147483648"), None);
    assert_eq!(parse_i32("-0"), Some(0));
    assert_eq!(parse_i32("+100"), Some(100));
    assert_eq!(parse_i32("-"), None);
}

#[test]
fn plain_flags_agree_with_std() {
    for s in ["true", "false", "True", "FALSE", "", "t", "truee", " true", ".true.", "1", "0"] {
        assert_eq!(parse_plain_flag(s), s.parse::<bool>().ok(), "input {:?}", s);
    }
}

#[test]
fn fortran_flags_are_read_in_any_case() {
    assert_eq!(parse_flag(".true."), Some(true));
    assert_eq!(parse_flag(".TRUE."), Some(true));
    assert_eq!(parse_flag(".True."), Some(true));
    assert_eq!(parse_flag(".false."), Some(false));
    assert_eq!(parse_flag(".FALSE."), Some(false));
    assert_eq!(parse_flag(".fAlSe."), Some(false));
}

#[test]
fn plain_flags_are_read_as_they_stand() {
    assert_eq!(parse_flag("true"), Some(true));
    assert_eq!(parse_flag("false"), Some(false));
    assert_eq!(parse_flag("TRUE"), None);
    assert_eq!(parse_flag("False"), None);
}

#[test]
fn other_texts_are_no_flags() {
    for s in ["", ".true", "true.", ".t.", ".f.", "yes", "1", "..true..", ".true. "] {
        assert_eq!(parse_flag(s), None, "input {:?}", s);
    }
}

#[test]
fn read_flag_takes_the_lowercase_form_as_given() {
    assert_eq!(read_flag(".true.", "anything"), Some(true));
    assert_eq!(read_flag(".false.", "true"), Some(false));
    assert_eq!(read_flag("other", "true"), Some(true));
    assert_eq!(read_flag("other", "false"), Some(false));
    assert_eq!(read_flag(".TRUE.", ".TRUE."), None);
    assert_eq!(read_flag("true", "TRUE"), None);
}

#[test]
fn chars_of_lists_the_characters() {
    assert_eq!(chars_of(""), Vec::<char>::new());
    assert_eq!(chars_of("a\u{e9}\u{1f600}b"), vec!['a', '\u{e9}', '\u{1f600}', 'b']);
}

#[test]
fn same_text_compares_characters() {
    assert!(same_text("", ""));
    assert!(same_text("abc", "abc"));
    assert!(!same_text("abc", "abd"));
    assert!(!same_text("abc", "ab"));
    assert!(!same_text("", "a"));
    assert!(same_text("\u{e9}t\u{e9}", "\u{e9}t\u{e9}"));
}

#[test]
fn integers_are_written_as_display_writes_them() {
    for n in [0u64, 1, 9, 10, 11, 99, 100, 12345, 1_000_000, u64::MAX] {
        assert_eq!(decimal_text(n), n.to_string());
    }
    for n in [0usize, 5, 10, 1_000_000, usize::MAX] {
        assert_eq!(usize_text(n), n.to_string());
    }
    for n in [0i32, 1, -1, 10, -10, 12345, -12345, i32::MAX, i32::MIN] {
        assert_eq!(i32_text(n), n.to_string());
    }
    assert_eq!(flag_text(true), "true");
    assert_eq!(flag_text(false), "false");
}

#[test]
fn written_integers_read_back() {
    for n in [0usize, 1, 9, 10, 99, 100, 4096, 1_000_000, usize::MAX] {
        assert_eq!(parse_usize(&usize_text(n)), Some(n));
    }
    for n in [0i32, 1, -1, 99, -100, i32::MAX, i32::MIN] {
        assert_eq!(parse_i32(&i32_text(n)), Some(n));
    }
    for b in [true, false] {
        assert_eq!(parse_flag(flag_text(b)), Some(b));
        assert_eq!(parse_plain_flag(flag_text(b)), Some(b));
    }
}
