use todo_checker::annotation::{find_shape, has_marker, is_word_char, read_date};
use todo_checker::date::Date;
use todo_checker::text::chars_of;
use todo_checker::todo_analyzer::{annotate, annotate_all, RawComment};

fn comment(text: &str, line_number: usize) -> RawComment {
    RawComment { text: text.to_string(), line_number }
}

#[test]
fn comment_without_marker_gives_no_annotation() {
    assert!(annotate(&comment("# just a note", 1)).is_none());
    assert!(annotate(&comment("", 1)).is_none());
    assert!(annotate(&comment("// to do: 2024-01-01 @alice", 1)).is_none());
    assert!(annotate(&comment("// fix me later", 1)).is_none());
}

#[test]
fn exact_annotation_is_well_formed() {
    let item = annotate(&comment("TODO: 2024-01-01 @alice fix this", 3)).unwrap();
    assert!(item.is_valid_format);
    assert_eq!(item.due_date, Some(Date { year: 2024, month: 1, day: 1 }));
    assert_eq!(item.owner.as_deref(), Some("alice"));
    assert_eq!(item.text, "TODO: 2024-01-01 @alice fix this");
    assert_eq!(item.line_number, 3);
}

#[test]
fn marker_without_shape_is_malformed() {
    let item = annotate(&comment("TODO fix later", 7)).unwrap();
    assert!(!item.is_valid_format);
    assert_eq!(item.due_date, None);
    assert_eq!(item.owner, None);
    assert_eq!(item.text, "TODO fix later");
    assert_eq!(item.line_number, 7);
}

#[test]
fn marker_is_found_in_any_case() {
    assert!(has_marker(&chars_of("todo")));
    assert!(has_marker(&chars_of("# ToDo: later")));
    assert!(has_marker(&chars_of("see FixMe")));
    assert!(has_marker(&chars_of("/** @todo tidy up */")));
    assert!(has_marker(&chars_of("xxTODOxx")));
    assert!(!has_marker(&chars_of("tod")));
    assert!(!has_marker(&chars_of("fixm e")));
    assert!(!has_marker(&chars_of("t\u{0}do")));
}

#[test]
fn shape_is_found_after_a_comment_sign() {
    let item = annotate(&comment("# TODO: 2020-01-01 @bob old task", 5)).unwrap();
    assert!(item.is_valid_format);
    assert_eq!(item.due_date, Some(Date { year: 2020, month: 1, day: 1 }));
    assert_eq!(item.owner.as_deref(), Some("bob"));
    assert_eq!(item.text, "# TODO: 2020-01-01 @bob old task");
}

#[test]
fn fixme_and_lower_case_markers_decode() {
    let item = annotate(&comment("// fixme: 2999-12-31 @carol future task", 1)).unwrap();
    assert!(item.is_valid_format);
    assert_eq!(item.due_date, Some(Date { year: 2999, month: 12, day: 31 }));
    assert_eq!(item.owner.as_deref(), Some("carol"));
}

#[test]
fn white_space_around_the_date_is_free() {
    let item = annotate(&comment("TODO:2024-03-05\t \n@dave", 1)).unwrap();
    assert!(item.is_valid_format);
    assert_eq!(item.due_date, Some(Date { year: 2024, month: 3, day: 5 }));
    assert_eq!(item.owner.as_deref(), Some("dave"));

    let item = annotate(&comment("TODO: \u{a0}\u{2003} 2024-03-05\u{3000}@dave", 1)).unwrap();
    assert!(item.is_valid_format);
    assert_eq!(item.owner.as_deref(), Some("dave"));
}

#[test]
fn missing_parts_make_the_annotation_malformed() {
    for text in [
        "TODO 2024-01-01 @alice no colon",
        "TODO: 2024-01-01 no owner",
        "TODO: 2024-01-01@alice no space",
        "TODO: 2024-01-01 @ empty owner",
        "TODO: 2024-1-01 @alice short month",
        "TODO: 24-01-01 @alice short year",
        "TODO: 2024/01/01 @alice slashes",
        "TODO : 2024-01-01 @alice space before colon",
        "TODO: @alice 2024-01-01 wrong order",
    ] {
        let item = annotate(&comment(text, 1)).unwrap();
        assert!(!item.is_valid_format, "{}", text);
        assert_eq!(item.due_date, None);
        assert_eq!(item.owner, None);
    }
}

#[test]
fn date_that_is_no_day_is_malformed() {
    for text in [
        "TODO: 2024-13-01 @alice month 13",
        "TODO: 2024-00-10 @alice month 0",
        "TODO: 2024-04-31 @alice april 31",
        "TODO: 2023-02-29 @alice no leap year",
        "TODO: 1900-02-29 @alice century",
        "TODO: 2024-01-00 @alice day 0",
    ] {
        let item = annotate(&comment(text, 2)).unwrap();
        assert!(!item.is_valid_format, "{}", text);
        assert_eq!(item.due_date, None);
        assert_eq!(item.owner, None);
        assert_eq!(item.text, text);
    }
    let item = annotate(&comment("TODO: 2024-02-29 @alice leap day", 2)).unwrap();
    assert_eq!(item.due_date, Some(Date { year: 2024, month: 2, day: 29 }));
    let item = annotate(&comment("TODO: 2000-02-29 @alice leap century", 2)).unwrap();
    assert_eq!(item.due_date, Some(Date { year: 2000, month: 2, day: 29 }));
    let item = annotate(&comment("TODO: 0000-01-01 @alice year zero", 2)).unwrap();
    assert_eq!(item.due_date, Some(Date { year: 0, month: 1, day: 1 }));
}

#[test]
fn leftmost_shape_decides() {
    let item = annotate(&comment("TODO: 2024-13-01 @x FIXME: 2024-01-01 @bob", 1)).unwrap();
    assert!(!item.is_valid_format);
    let item = annotate(&comment("TODO later, FIXME: 2024-01-01 @bob", 1)).unwrap();
    assert!(item.is_valid_format);
    assert_eq!(item.owner.as_deref(), Some("bob"));
    let item = annotate(&comment("TODO: 2024-02-02 @ann FIXME: 2024-01-01 @bob", 1)).unwrap();
    assert_eq!(item.owner.as_deref(), Some("ann"));
    assert_eq!(item.due_date, Some(Date { year: 2024, month: 2, day: 2 }));
}

#[test]
fn malformed_text_is_trimmed_and_well_formed_text_is_kept() {
    let item = annotate(&comment("  \t TODO fix later \n", 1)).unwrap();
    assert_eq!(item.text, "TODO fix later");
    let item = annotate(&comment("\u{3000}TODO\u{2028}", 1)).unwrap();
    assert_eq!(item.text, "TODO");
    let item = annotate(&comment("  TODO: 2024-01-01 @alice fix this  ", 1)).unwrap();
    assert_eq!(item.text, "  TODO: 2024-01-01 @alice fix this  ");
}

#[test]
fn owner_is_the_longest_run_of_word_characters() {
    let item = annotate(&comment("TODO: 2024-01-01 @bob-smith", 1)).unwrap();
    assert_eq!(item.owner.as_deref(), Some("bob"));
    let item = annotate(&comment("TODO: 2024-01-01 @team_7.", 1)).unwrap();
    assert_eq!(item.owner.as_deref(), Some("team_7"));
    let item = annotate(&comment("TODO: 2024-01-01 @jos\u{e9} tidy", 1)).unwrap();
    assert_eq!(item.owner.as_deref(), Some("jos\u{e9}"));
    let item = annotate(&comment("TODO: 2024-01-01 @\u{5f20}\u{4e09}: tidy", 1)).unwrap();
    assert_eq!(item.owner.as_deref(), Some("\u{5f20}\u{4e09}"));
    let item = annotate(&comment("TODO: 2024-01-01 @\u{2014}", 1)).unwrap();
    assert!(!item.is_valid_format);
}

#[test]
fn word_characters_follow_unicode() {
    for c in ['a', 'Z', '0', '_', '\u{e9}', '\u{3b1}', '\u{5f20}', '\u{663}', '\u{301}'] {
        assert!(is_word_char(c), "{:?}", c);
    }
    for c in ['-', '@', ' ', ':', '.', '\u{7f}', '\u{a0}', '\u{2014}', '\u{1f600}'] {
        assert!(!is_word_char(c), "{:?}", c);
    }
}

#[test]
fn shape_gives_the_places_of_date_and_owner() {
    let chars = chars_of("# TODO:  2024-01-01  @alice!");
    let shape = find_shape(&chars).unwrap();
    assert_eq!(shape.date, 9);
    assert_eq!(shape.owner, 22);
    assert_eq!(shape.owner_end, 27);
    assert_eq!(read_date(&chars, shape.date), Some(Date { year: 2024, month: 1, day: 1 }));
    assert!(find_shape(&chars_of("TODO: 2024-01-01")).is_none());
    assert!(find_shape(&chars_of("")).is_none());
}

#[test]
fn digits_beyond_ascii_are_no_date() {
    let item = annotate(&comment("TODO: \u{662}\u{660}\u{662}\u{664}-01-01 @alice", 1)).unwrap();
    assert!(!item.is_valid_format);
}

#[test]
fn annotations_keep_the_order_of_the_comments() {
    let comments = vec![
        comment("# note", 1),
        comment("# TODO first", 2),
        comment("# nothing", 3),
        comment("# FIXME: 2024-05-06 @eve second", 4),
    ];
    let items = annotate_all(&comments);
    assert_eq!(items.len(), 2);
    assert_eq!(items[0].line_number, 2);
    assert!(!items[0].is_valid_format);
    assert_eq!(items[1].line_number, 4);
    assert!(items[1].is_valid_format);
    assert!(annotate_all(&[]).is_empty());
}
