use forgeos::text::{
    clipped, decimal_text, find_from, is_whitespace, join, lines_of, padded, same, trimmed,
    trimmed_end, trimmed_start, words_of,
};

const SAMPLES: [&str; 14] = [
    "",
    " ",
    "a",
    "  a b  ",
    "a\n",
    "a\r\nb",
    "\n\n",
    "a\r",
    "a\r\n\r\nb\r",
    "\r\n",
    "x\ny\n\nz",
    "\u{a0}wide\u{3000}",
    "tab\tand\u{2003}em\u{85}",
    "é\nü  ß \n",
];

#[test]
fn whitespace_is_the_unicode_property() {
    for n in 0..=0x10ffff_u32 {
        if let Some(c) = char::from_u32(n) {
            assert_eq!(is_whitespace(c), c.is_whitespace(), "U+{n:04X}");
        }
    }
}

#[test]
fn trimming_agrees_with_std() {
    for s in SAMPLES {
        assert_eq!(trimmed(s), s.trim());
        assert_eq!(trimmed_start(s), s.trim_start());
        assert_eq!(trimmed_end(s), s.trim_end());
    }
    assert_eq!(trimmed(" \t x y \n"), "x y");
}

#[test]
fn lines_agree_with_std() {
    for s in SAMPLES {
        let want: Vec<String> = s.lines().map(str::to_string).collect();
        assert_eq!(lines_of(s), want, "{s:?}");
    }
    assert_eq!(lines_of("a\r\nb\n\nc\r"), vec!["a", "b", "", "c\r"]);
}

#[test]
fn words_agree_with_std() {
    for s in SAMPLES {
        let want: Vec<String> = s.split_whitespace().map(str::to_string).collect();
        assert_eq!(words_of(s), want, "{s:?}");
    }
    assert_eq!(words_of("  code\t--wait  "), vec!["code", "--wait"]);
}

#[test]
fn joining() {
    let parts = |ps: &[&str]| -> Vec<String> { ps.iter().map(|p| p.to_string()).collect() };
    assert_eq!(join(&parts(&[]), ","), "");
    assert_eq!(join(&parts(&["a"]), ","), "a");
    assert_eq!(join(&parts(&["a", "", "c"]), ", "), "a, , c");
}

#[test]
fn padding_and_clipping_count_characters() {
    assert_eq!(padded("ab", 4), "ab  ");
    assert_eq!(padded("äö", 4), format!("{:<4}", "äö"));
    assert_eq!(padded("abcde", 4), "abcde");
    assert_eq!(padded("", 2), "  ");
    assert_eq!(clipped("äöü", 2), "äö");
    assert_eq!(clipped("ab", 2), "ab");
    assert_eq!(clipped("ab", 0), "");
}

#[test]
fn decimal_numbers() {
    for n in [0, 7, 9, 10, 99, 100, 4096, 1234567890, u64::MAX] {
        assert_eq!(decimal_text(n), n.to_string());
    }
}

#[test]
fn equality_and_search() {
    assert!(same("é", "é"));
    assert!(!same("a", "ab"));
    let cs: Vec<char> = "a=b=c".chars().collect();
    assert_eq!(find_from(&cs, '=', 0), 1);
    assert_eq!(find_from(&cs, '=', 2), 3);
    assert_eq!(find_from(&cs, '#', 0), 5);
}
