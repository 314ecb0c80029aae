use oye::text::{decimal_string, split_words, trim, white_space};

#[test]
fn decimal_string_writes_small_numbers() {
    assert_eq!(decimal_string(0), "0");
    assert_eq!(decimal_string(7), "7");
    assert_eq!(decimal_string(9), "9");
    assert_eq!(decimal_string(10), "10");
    assert_eq!(decimal_string(12345), "12345");
    assert_eq!(decimal_string(1000), "1000");
}

#[test]
fn decimal_string_agrees_with_to_string() {
    let mut n: usize = 0;
    while n < 2500 {
        assert_eq!(decimal_string(n), n.to_string());
        n += 1;
    }
    assert_eq!(decimal_string(usize::MAX), usize::MAX.to_string());
}

#[test]
fn white_space_agrees_with_the_standard_library_on_every_char() {
    let mut code: u32 = 0;
    while code <= 0x10FFFF {
        if let Some(c) = char::from_u32(code) {
            assert_eq!(white_space(c), c.is_whitespace(), "code point {:x}", code);
        }
        code += 1;
    }
}

#[test]
fn trim_cuts_both_ends() {
    assert_eq!(trim("  1 2  "), "1 2");
    assert_eq!(trim("1 2\n"), "1 2");
    assert_eq!(trim("\t 1\r\n"), "1");
    assert_eq!(trim(""), "");
    assert_eq!(trim("   "), "");
    assert_eq!(trim("a"), "a");
    assert_eq!(trim("\u{3000}a b\u{a0}"), "a b");
}

#[test]
fn trim_agrees_with_the_standard_library() {
    let samples = vec![
        "",
        " ",
        "\n",
        "1 2 3\n",
        "  leading",
        "trailing  ",
        " \t both \r\n",
        "in  side",
        "\u{2003}wide\u{2003}",
        "caf\u{e9} \u{1F600} ",
        "\u{85}x\u{85}",
    ];
    for sample in samples {
        assert_eq!(trim(sample), sample.trim());
    }
}

#[test]
fn split_words_drops_empty_pieces() {
    assert_eq!(split_words("1 2"), vec!["1".to_string(), "2".to_string()]);
    assert_eq!(split_words("1  2"), vec!["1".to_string(), "2".to_string()]);
    assert_eq!(split_words(" 1 2 "), vec!["1".to_string(), "2".to_string()]);
    assert_eq!(split_words("12"), vec!["12".to_string()]);
    assert_eq!(split_words(""), Vec::<String>::new());
    assert_eq!(split_words("    "), Vec::<String>::new());
}

#[test]
fn split_words_splits_at_spaces_only() {
    assert_eq!(split_words("1\t2"), vec!["1\t2".to_string()]);
    assert_eq!(split_words("1\n2 3"), vec!["1\n2".to_string(), "3".to_string()]);
    assert_eq!(split_words("\u{e9}\u{e9} x"), vec!["\u{e9}\u{e9}".to_string(), "x".to_string()]);
}

#[test]
fn split_words_agrees_with_split_and_filter() {
    let samples = vec!["", " ", "a", "a b", "  a   b  c ", "a\tb c", "1 2 2 9", " \u{1F600}  x"];
    for sample in samples {
        let expected: Vec<String> =
            sample.split(" ").map(|n| n.to_string()).filter(|n| n != "").collect();
        assert_eq!(split_words(sample), expected);
    }
}
