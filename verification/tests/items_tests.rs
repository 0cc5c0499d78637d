use cross_section::items::{is_whitespace, split_items};

fn reference_items(text: &str) -> Vec<&str> {
    text.lines().filter_map(|line| line.split_whitespace().next()).collect()
}

#[test]
fn white_space_is_that_of_unicode() {
    for code in 0u32..=0x10ffff {
        if let Some(c) = char::from_u32(code) {
            assert_eq!(is_whitespace(c), c.is_whitespace(), "character {:?}", c);
        }
    }
}

#[test]
fn items_are_first_words_of_lines() {
    let text = "1000   number of events\n200.0\tenergy\n\n   \n  0.5 x y z\nlast";
    assert_eq!(split_items(text), vec!["1000", "200.0", "0.5", "last"]);
}

#[test]
fn empty_text_has_no_items() {
    assert_eq!(split_items(""), Vec::<&str>::new());
    assert_eq!(split_items("\n"), Vec::<&str>::new());
    assert_eq!(split_items("  \n\t\n \r\n"), Vec::<&str>::new());
}

#[test]
fn items_agree_with_lines_and_split_whitespace() {
    let samples = [
        "",
        "a",
        "a\n",
        "\na",
        "a b\nc d\n",
        "a\r\nb\r\n",
        "a\rb\nc",
        "  lead\n\ttab\n",
        "x\n\n\ny",
        "one two three",
        "\u{a0}nbsp\u{2003}em\n\u{3000}wide rest",
        "a\u{85}b\nc",
        "a\u{2028}b\n",
        "a\u{b}b\nc\u{c}d\n",
        "\n\n\n",
        "trailing   \n   ",
        "\u{feff}bom first\nsecond",
        "1000000\n200\n0.839\n0.839\n10\n0\n",
    ];
    for text in samples {
        assert_eq!(split_items(text), reference_items(text), "text {:?}", text);
    }
}

#[test]
fn items_borrow_from_the_text() {
    let text = String::from("alpha beta\n  gamma");
    let items = split_items(&text);
    assert_eq!(items.len(), 2);
    assert_eq!(items[0], "alpha");
    assert_eq!(items[1], "gamma");
}
