use godspeed::text::{
    blank, chars_of, concat2, concat3, decimal_string, digit_text, find_text, is_space,
    join_texts, leading_run, matches_at, push_decimal, push_signed_decimal, range_ends_with,
    same_text, slice_text, trim_bounds,
};

fn chars(s: &str) -> Vec<char> {
    s.chars().collect()
}

#[test]
fn chars_of_gives_the_characters_in_order() {
    assert_eq!(chars_of(""), Vec::<char>::new());
    assert_eq!(chars_of("aé漢"), vec!['a', 'é', '漢']);
}

#[test]
fn same_text_compares_character_by_character() {
    assert!(same_text("", ""));
    assert!(same_text("yt-dlp", "yt-dlp"));
    assert!(!same_text("yt-dlp", "yt-dlq"));
    assert!(!same_text("yt-dlp", "yt-dl"));
    assert!(!same_text("a", "A"));
}

#[test]
fn find_text_gives_the_leftmost_occurrence() {
    assert_eq!(find_text(&chars("abcabc"), &chars("bc")), Some(1));
    assert_eq!(find_text(&chars("abcabc"), &chars("abcabc")), Some(0));
    assert_eq!(find_text(&chars("abcabc"), &chars("cab")), Some(2));
    assert_eq!(find_text(&chars("abcabc"), &chars("")), Some(0));
    assert_eq!(find_text(&chars(""), &chars("")), Some(0));
    assert_eq!(find_text(&chars("abc"), &chars("abcd")), None);
    assert_eq!(find_text(&chars("abc"), &chars("d")), None);
    assert_eq!(find_text(&chars("aab"), &chars("ab")), Some(1));
}

#[test]
fn matches_at_checks_one_position() {
    assert!(matches_at(&chars("hello"), &chars("ll"), 2));
    assert!(!matches_at(&chars("hello"), &chars("ll"), 1));
    assert!(!matches_at(&chars("hello"), &chars("lo"), 4));
    assert!(matches_at(&chars("hello"), &chars(""), 5));
    assert!(!matches_at(&chars("hello"), &chars(""), 6));
    assert!(!matches_at(&chars("hi"), &chars("hi!"), usize::MAX));
}

#[test]
fn range_ends_with_looks_at_the_range_only() {
    let s = chars("a.mp3 ");
    assert!(range_ends_with(&s, 0, 5, &chars(".mp3")));
    assert!(!range_ends_with(&s, 0, 6, &chars(".mp3")));
    assert!(!range_ends_with(&s, 2, 5, &chars(".mp3")));
    assert!(range_ends_with(&s, 1, 5, &chars(".mp3")));
    assert!(range_ends_with(&s, 3, 3, &chars("")));
}

#[test]
fn whitespace_is_the_unicode_property() {
    for c in ['\t', '\n', '\u{b}', '\u{c}', '\r', ' ', '\u{85}', '\u{a0}', '\u{1680}', '\u{2000}',
        '\u{200a}', '\u{2028}', '\u{2029}', '\u{202f}', '\u{205f}', '\u{3000}']
    {
        assert!(is_space(c));
    }
    for c in ['a', '\u{8}', '\u{e}', '\u{1f}', '!', '\u{84}', '\u{86}', '\u{180e}', '\u{200b}', '\u{feff}'] {
        assert!(!is_space(c));
    }
    let mut c = 0u32;
    while c <= 0x3100 {
        if let Some(ch) = char::from_u32(c) {
            assert_eq!(is_space(ch), ch.is_whitespace());
        }
        c += 1;
    }
}

#[test]
fn trim_bounds_trims_both_ends_from_the_start_given() {
    assert_eq!(trim_bounds(&chars("  ab c  "), 0), (2, 6));
    assert_eq!(trim_bounds(&chars("  ab c  "), 3), (3, 6));
    assert_eq!(trim_bounds(&chars("  ab c  "), 4), (5, 6));
    assert_eq!(trim_bounds(&chars("    "), 1), (4, 4));
    assert_eq!(trim_bounds(&chars(""), 0), (0, 0));
    assert_eq!(trim_bounds(&chars("ab"), 2), (2, 2));
}

#[test]
fn blank_means_nothing_but_whitespace() {
    assert!(blank(&chars("")));
    assert!(blank(&chars(" \t\r\n")));
    assert!(!blank(&chars(" x ")));
}

#[test]
fn leading_run_counts_the_characters_at_the_start() {
    assert_eq!(leading_run(&chars("v1.2"), 'v'), 1);
    assert_eq!(leading_run(&chars("vvv"), 'v'), 3);
    assert_eq!(leading_run(&chars("1.2v"), 'v'), 0);
    assert_eq!(leading_run(&chars(""), 'v'), 0);
}

#[test]
fn decimal_strings_match_the_standard_ones() {
    for n in [0u64, 1, 9, 10, 11, 99, 100, 101, 12345, 4294967296, u64::MAX] {
        assert_eq!(decimal_string(n), n.to_string());
    }
    for d in 0u8..10 {
        assert_eq!(digit_text(d), d.to_string());
    }
    let mut out = String::from("n=");
    push_decimal(&mut out, 2048);
    assert_eq!(out, "n=2048");
    for i in [0i32, 7, -7, 10, -10, i32::MAX, i32::MIN] {
        let mut out = String::from("<");
        push_signed_decimal(&mut out, i);
        assert_eq!(out, format!("<{}", i));
    }
}

#[test]
fn slices_are_cut_by_characters() {
    assert_eq!(slice_text("héllo", 1, 3), "él");
    assert_eq!(slice_text("héllo", 0, 5), "héllo");
    assert_eq!(slice_text("héllo", 5, 5), "");
}

#[test]
fn joining_puts_the_separator_between_neighbours() {
    assert_eq!(join_texts(&vec![], "; "), "");
    assert_eq!(join_texts(&vec!["a".to_string()], "; "), "a");
    assert_eq!(join_texts(&vec!["a".to_string(), "".to_string(), "c".to_string()], "; "), "a; ; c");
    assert_eq!(concat2("ab", "cd"), "abcd");
    assert_eq!(concat3("ab", "", "cd"), "abcd");
}
