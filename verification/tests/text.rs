use game_generator::text::{
    chars_of, contains, count_char, count_matches, extend, is_whitespace, matches_at,
    push_decimal, same_text, split_lines, string_of, trim_bounds,
};

fn chars(s: &str) -> Vec<char> {
    s.chars().collect()
}

const SAMPLES: [&str; 16] = [
    "",
    " ",
    "a",
    "  a b  ",
    "\n",
    "\r\n",
    "a\nb",
    "a\r\nb\r\n",
    "a\rb\n\nc\r",
    "\n\n\n",
    "``` ```` `````` `",
    "{{ x }} {% y %} {",
    "\u{2003}wide\u{00A0}space\u{3000}",
    "\u{200B}not space\u{FEFF}",
    "tab\there\u{0085}",
    "ünïcödé\n```rust\n{}\n```\n",
];

#[test]
fn whitespace_is_the_unicode_property() {
    let mut c = 0u32;
    while c <= 0x10FFFF {
        if let Some(ch) = char::from_u32(c) {
            assert_eq!(is_whitespace(ch), ch.is_whitespace(), "U+{:04X}", c);
        }
        c += 1;
    }
}

#[test]
fn trim_bounds_cut_what_trim_cuts() {
    for s in SAMPLES {
        let v = chars(s);
        let (a, b) = trim_bounds(&v);
        let cut: String = v[a..b].iter().collect();
        assert_eq!(cut, s.trim(), "{:?}", s);
    }
    assert_eq!(trim_bounds(&chars("  ab ")), (2, 4));
    assert_eq!(trim_bounds(&chars("   ")), (3, 3));
    assert_eq!(trim_bounds(&chars("")), (0, 0));
}

#[test]
fn contains_finds_what_str_contains_finds() {
    let patterns = ["", "a", "{{", "{%", "```", "\n\n", "b\r", "ö", "zzz", "a\nb"];
    for s in SAMPLES {
        for p in patterns {
            assert_eq!(contains(&chars(s), &chars(p)), s.contains(p), "{:?} in {:?}", p, s);
        }
    }
}

#[test]
fn matches_at_checks_one_position() {
    let v = chars("abcabc");
    assert!(matches_at(&v, &chars("abc"), 0));
    assert!(matches_at(&v, &chars("abc"), 3));
    assert!(!matches_at(&v, &chars("abc"), 1));
    assert!(!matches_at(&v, &chars("abc"), 4));
    assert!(matches_at(&v, &chars(""), 6));
    assert!(!matches_at(&v, &chars(""), 7));
    assert!(!matches_at(&v, &chars("abcabca"), 0));
}

#[test]
fn count_matches_counts_disjoint_matches() {
    let patterns = ["a", "```", "``", "\n", "aa", "{{", "ab"];
    for s in SAMPLES {
        for p in patterns {
            assert_eq!(
                count_matches(&chars(s), &chars(p)),
                s.matches(p).count(),
                "{:?} in {:?}",
                p,
                s
            );
        }
    }
    assert_eq!(count_matches(&chars("aaaaa"), &chars("aa")), 2);
    assert_eq!(count_matches(&chars("`````````"), &chars("```")), 3);
    assert_eq!(count_matches(&chars("abc"), &chars("")), 0);
}

#[test]
fn count_char_counts_positions() {
    assert_eq!(count_char(&chars("{a{b}c{"), '{'), 3);
    assert_eq!(count_char(&chars("{a{b}c{"), '}'), 1);
    assert_eq!(count_char(&chars(""), '{'), 0);
}

#[test]
fn split_lines_splits_as_str_lines_does() {
    for s in SAMPLES {
        let got: Vec<String> = split_lines(&chars(s)).iter().map(|l| l.iter().collect()).collect();
        let want: Vec<String> = s.lines().map(|l| l.to_string()).collect();
        assert_eq!(got, want, "{:?}", s);
    }
    assert_eq!(split_lines(&chars("a\r\nb\n")), vec![chars("a"), chars("b")]);
    assert_eq!(split_lines(&chars("a\r")), vec![chars("a\r")]);
    assert_eq!(split_lines(&chars("\n")), vec![chars("")]);
    assert_eq!(split_lines(&chars("")), Vec::<Vec<char>>::new());
}

#[test]
fn push_decimal_writes_the_numeral() {
    for n in [0usize, 1, 9, 10, 11, 99, 100, 101, 1000, 65535, 4294967295, usize::MAX] {
        let mut out = chars("n=");
        push_decimal(&mut out, n);
        let got: String = out.iter().collect();
        assert_eq!(got, format!("n={}", n));
    }
}

#[test]
fn conversions_keep_the_text() {
    for s in SAMPLES {
        assert_eq!(chars_of(s), chars(s));
        assert_eq!(string_of(&chars(s)), s);
    }
    let mut v = chars("ab");
    extend(&mut v, &chars("cd"));
    assert_eq!(v, chars("abcd"));
    extend(&mut v, &chars(""));
    assert_eq!(v, chars("abcd"));
}

#[test]
fn same_text_is_equality() {
    assert!(same_text("", ""));
    assert!(same_text("a/b.txt", "a/b.txt"));
    assert!(!same_text("a/b.txt", "a/b.tx"));
    assert!(!same_text("a/b.tx", "a/b.txt"));
    assert!(!same_text("abc", "abd"));
}
