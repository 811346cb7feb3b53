use tsbot::text::{
    chars_of, parse_u32, remove_all, same_text, split, string_of, sub_range, trim, white_space,
};

fn vec_of(s: &str) -> Vec<char> {
    s.chars().collect()
}

#[test]
fn white_space_is_the_unicode_property() {
    for n in 0..=0x10ffff_u32 {
        if let Some(c) = char::from_u32(n) {
            assert_eq!(white_space(c), c.is_whitespace(), "U+{:04X}", n);
        }
    }
}

#[test]
fn chars_and_strings_are_one() {
    for s in ["", "a", "!yt x", "äöü€😀", "\t \n"] {
        assert_eq!(chars_of(s), vec_of(s));
        assert_eq!(string_of(&vec_of(s)), s);
    }
}

#[test]
fn sub_ranges_are_cut_out() {
    let chars = vec_of("abcdef");
    assert_eq!(sub_range(&chars, 1, 4), vec_of("bcd"));
    assert_eq!(sub_range(&chars, 2, 2), vec_of(""));
    assert_eq!(sub_range(&chars, 0, 6), chars);
}

#[test]
fn same_text_compares_letter_by_letter() {
    assert!(same_text(&vec_of("!stop"), "!stop"));
    assert!(same_text(&vec_of(""), ""));
    assert!(!same_text(&vec_of("!stop"), "!stopp"));
    assert!(!same_text(&vec_of("!stop"), "!stoq"));
    assert!(!same_text(&vec_of("!Stop"), "!stop"));
}

#[test]
fn trimming_takes_both_ends() {
    for s in ["", " ", " a", "a ", "\t a b \n", "\u{a0}x\u{3000}", "\u{200b}x", "a\u{2028}"] {
        assert_eq!(trim(&vec_of(s)), vec_of(s.trim()), "{:?}", s);
    }
}

#[test]
fn patterns_are_removed_from_left_to_right() {
    let cases = [
        ("[URL]x[/URL]", "[URL]"),
        ("[[URL]URL]", "[URL]"),
        ("aaaa", "aa"),
        ("aaaaa", "aa"),
        ("abab", "aba"),
        ("", "a"),
        ("ab", "abc"),
        ("[URL", "[URL]"),
    ];
    for (s, pattern) in cases {
        assert_eq!(
            remove_all(&vec_of(s), &vec_of(pattern)),
            vec_of(&s.replace(pattern, "")),
            "{:?} {:?}",
            s,
            pattern
        );
    }
    assert_eq!(remove_all(&vec_of("abc"), &vec_of("")), vec_of("abc"));
    assert_eq!(remove_all(&vec_of("[[URL]URL]"), &vec_of("[URL]")), vec_of("[URL]"));
}

#[test]
fn splitting_keeps_empty_pieces() {
    for s in ["", " ", "a", "a b", " a", "a ", "a  b", "!yt x y"] {
        let expected: Vec<Vec<char>> = s.split(' ').map(vec_of).collect();
        assert_eq!(split(&vec_of(s), ' '), expected, "{:?}", s);
    }
    assert_eq!(split(&vec_of("a  b"), ' ').len(), 3);
}

#[test]
fn a_joined_text_splits_into_the_pieces_of_its_parts() {
    for (a, b) in [("", ""), ("a", "b"), ("a b", ""), (" a", "b c")] {
        let mut parts = split(&vec_of(a), ' ');
        parts.extend(split(&vec_of(b), ' '));
        assert_eq!(split(&vec_of(&format!("{} {}", a, b)), ' '), parts);
    }
}

#[test]
fn numbers_are_read_in_decimal() {
    let cases = [
        "0",
        "7",
        "007",
        "100",
        "+5",
        "4294967295",
        "4294967296",
        "42949672950",
        "99999999999999999999999999",
        "00000000000000000000000000000042",
        "",
        "+",
        "-1",
        "1a",
        "a1",
        "1 ",
        "++1",
        "1+",
        "٣",
        "0x10",
    ];
    for s in cases {
        assert_eq!(parse_u32(&vec_of(s)), s.parse::<u32>().ok(), "{:?}", s);
    }
    assert_eq!(parse_u32(&vec_of("4294967295")), Some(4294967295));
    assert_eq!(parse_u32(&vec_of("4294967296")), None);
}
