use todo_checker::text::{
    chars_of, count_fitting_prefix, count_fitting_suffix, has_at, is_space, joined, push_decimal,
    replaced, skip_whitespace, split_lines, str_eq, trimmed, width_of,
};

fn text(chars: &[char]) -> String {
    chars.iter().collect()
}

fn lines_of(s: &str) -> Vec<String> {
    split_lines(&chars_of(s)).iter().map(|line| text(line)).collect()
}

fn decimal(n: usize) -> String {
    let mut out = vec!['#'];
    push_decimal(&mut out, n);
    text(&out)
}

#[test]
fn chars_are_those_of_the_string() {
    assert_eq!(chars_of(""), Vec::<char>::new());
    assert_eq!(chars_of("a\u{e9}\u{1f600}"), vec!['a', '\u{e9}', '\u{1f600}']);
}

#[test]
fn strings_compare_by_their_characters() {
    assert!(str_eq("", ""));
    assert!(str_eq("table", "table"));
    assert!(!str_eq("table", "tabl"));
    assert!(!str_eq("tabl", "table"));
    assert!(!str_eq("table", "tablE"));
    assert!(str_eq("\u{e9}", "\u{e9}"));
    assert!(!str_eq("\u{e9}", "e\u{301}"));
}

#[test]
fn white_space_is_that_of_unicode() {
    let spaces = [
        '\t', '\n', '\u{b}', '\u{c}', '\r', ' ', '\u{85}', '\u{a0}', '\u{1680}', '\u{2000}',
        '\u{2005}', '\u{200a}', '\u{2028}', '\u{2029}', '\u{202f}', '\u{205f}', '\u{3000}',
    ];
    for c in spaces {
        assert!(is_space(c), "{:?}", c);
    }
    for c in ['a', '0', '\u{8}', '\u{e}', '\u{1f}', '\u{200b}', '\u{180e}', '\u{feff}', '\u{2060}'] {
        assert!(!is_space(c), "{:?}", c);
    }
    for c in (0..0x3100u32).filter_map(char::from_u32) {
        assert_eq!(is_space(c), c.is_whitespace(), "{:?}", c);
    }
}

#[test]
fn trimming_takes_white_space_off_both_ends() {
    for (given, expected) in [
        ("", ""),
        ("   ", ""),
        ("a", "a"),
        ("  a b  ", "a b"),
        ("\n\ta\u{a0}", "a"),
        ("a  ", "a"),
        ("  a", "a"),
        ("\u{3000}x\u{2003}y\u{2028}", "x\u{2003}y"),
    ] {
        assert_eq!(text(trimmed(&chars_of(given))), expected, "{:?}", given);
        assert_eq!(text(trimmed(&chars_of(given))), given.trim());
    }
}

#[test]
fn white_space_run_ends_at_the_next_other_character() {
    let chars = chars_of("ab  \t c ");
    assert_eq!(skip_whitespace(&chars, 0), 0);
    assert_eq!(skip_whitespace(&chars, 2), 6);
    assert_eq!(skip_whitespace(&chars, 4), 6);
    assert_eq!(skip_whitespace(&chars, 6), 6);
    assert_eq!(skip_whitespace(&chars, 7), 8);
    assert_eq!(skip_whitespace(&chars, 8), 8);
}

#[test]
fn lines_end_at_line_feeds() {
    assert_eq!(lines_of(""), Vec::<String>::new());
    assert_eq!(lines_of("a"), vec!["a"]);
    assert_eq!(lines_of("a\n"), vec!["a"]);
    assert_eq!(lines_of("a\nb"), vec!["a", "b"]);
    assert_eq!(lines_of("a\n\nb\n"), vec!["a", "", "b"]);
    assert_eq!(lines_of("\n"), vec![""]);
    assert_eq!(lines_of("\n\n"), vec!["", ""]);
    assert_eq!(lines_of("a\r\nb\r\n"), vec!["a", "b"]);
    assert_eq!(lines_of("a\rb\r"), vec!["a\rb\r"]);
    assert_eq!(lines_of("a\r\r\nb"), vec!["a\r", "b"]);
    assert_eq!(lines_of("\r\n"), vec![""]);
    for s in ["", "a", "a\n", "a\nb", "\n\n", "a\r\nb\r\n", "a\rb\r", "x\r\n\r\n", "\r"] {
        let expected: Vec<String> = s.lines().map(|line| line.to_string()).collect();
        assert_eq!(lines_of(s), expected, "{:?}", s);
    }
}

#[test]
fn joining_puts_a_line_feed_between_lines() {
    assert_eq!(text(&joined(&vec![])), "");
    assert_eq!(text(&joined(&vec![chars_of("a")])), "a");
    assert_eq!(text(&joined(&vec![chars_of("a"), chars_of(""), chars_of("b")])), "a\n\nb");
    assert_eq!(text(&joined(&vec![chars_of(""), chars_of("")])), "\n");
}

#[test]
fn width_is_the_length_in_utf8() {
    for c in ['\u{0}', 'a', '\u{7f}', '\u{80}', '\u{7ff}', '\u{800}', '\u{ffff}', '\u{10000}', '\u{10ffff}'] {
        assert_eq!(width_of(c), c.len_utf8(), "{:?}", c);
    }
}

#[test]
fn prefix_and_suffix_fit_into_a_number_of_bytes() {
    let chars = chars_of("a\u{e9}\u{20ac}\u{1f600}b");
    let prefix: Vec<usize> = (0..13).map(|budget| count_fitting_prefix(&chars, budget)).collect();
    assert_eq!(prefix, vec![0, 1, 1, 2, 2, 2, 3, 3, 3, 3, 4, 5, 5]);
    let suffix: Vec<usize> = (0..13).map(|budget| count_fitting_suffix(&chars, budget)).collect();
    assert_eq!(suffix, vec![0, 1, 1, 1, 1, 2, 2, 2, 3, 3, 4, 5, 5]);
    assert_eq!(count_fitting_prefix(&[], 3), 0);
    assert_eq!(count_fitting_suffix(&[], 3), 0);
    assert_eq!(count_fitting_prefix(&chars, usize::MAX), 5);
    assert_eq!(count_fitting_suffix(&chars, usize::MAX), 5);
}

#[test]
fn numbers_are_written_in_decimal() {
    assert_eq!(decimal(0), "#0");
    assert_eq!(decimal(7), "#7");
    assert_eq!(decimal(10), "#10");
    assert_eq!(decimal(1234567890), "#1234567890");
    assert_eq!(decimal(usize::MAX), format!("#{}", usize::MAX));
}

#[test]
fn pattern_is_found_where_it_stands() {
    let chars = chars_of("abcabc");
    assert!(has_at(&chars, 0, &chars_of("abc")));
    assert!(has_at(&chars, 3, &chars_of("abc")));
    assert!(!has_at(&chars, 1, &chars_of("abc")));
    assert!(!has_at(&chars, 4, &chars_of("abc")));
    assert!(has_at(&chars, 6, &chars_of("")));
    assert!(!has_at(&chars, 6, &chars_of("a")));
}

#[test]
fn every_occurrence_is_replaced() {
    let replace = |s: &str, pattern: &str, with: &str| {
        text(&replaced(&chars_of(s), &chars_of(pattern), &chars_of(with)))
    };
    assert_eq!(replace("a%%x%%b%%x%%", "%%x%%", "1"), "a1b1");
    assert_eq!(replace("aaa", "aa", "b"), "ba");
    assert_eq!(replace("abc", "d", "e"), "abc");
    assert_eq!(replace("", "a", "b"), "");
    assert_eq!(replace("abc", "", "x"), "abc");
    assert_eq!(replace("abab", "ab", "abab"), "abababab");
    assert_eq!(replace("x%%file%", "%%file%%", "p"), "x%%file%");
    for (s, pattern, with) in [("a-b-c", "-", "+"), ("aaaa", "aa", "a"), ("abc", "abc", "")] {
        assert_eq!(replace(s, pattern, with), s.replace(pattern, with));
    }
}
