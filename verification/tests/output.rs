use todo_checker::cli::Cli;
use todo_checker::date::Date;
use todo_checker::output::json::{json_fields, json_record, json_records, JsonValue};
use todo_checker::output::table::{
    format_multiline_comment, formatted_table, get_clickable_file_link, truncate_comment,
    truncate_file_path, Color,
};
use todo_checker::todo_analyzer::TodoWarning;

const EDITOR: &str = "editor://open?file=%%file%%&line=%%line%%";

fn options(no_tty: bool, check_format_only: bool, check_due_only: bool, max: usize) -> Cli {
    Cli {
        config_file_path: "config.toml".to_string(),
        check_format_only,
        check_due_only,
        due_after: 0,
        max_comment_length: max,
        format: "table".to_string(),
        no_tty,
        exit_zero: false,
    }
}

fn sample() -> Vec<TodoWarning> {
    vec![
        TodoWarning::InvalidFormat { line_number: 3, comment: "# TODO fix later".to_string() },
        TodoWarning::Overdue {
            line_number: 5,
            due_date: Date::new(2020, 1, 1).unwrap(),
            owner: Some("bob".to_string()),
            comment: "# TODO: 2020-01-01 @bob old task".to_string(),
        },
        TodoWarning::DueSoon {
            line_number: 8,
            due_date: Date::new(2999, 12, 31).unwrap(),
            owner: None,
            comment: "/*\n   FIXME: 2999-12-31 @carol far\n   away */".to_string(),
            days_until_due: 355_959,
        },
    ]
}

#[test]
fn comment_lines_are_trimmed() {
    assert_eq!(format_multiline_comment(""), "");
    assert_eq!(format_multiline_comment("  a  "), "a");
    assert_eq!(format_multiline_comment("/*\n   * b \n\t*/\n"), "/*\n* b\n*/");
    assert_eq!(format_multiline_comment("a\r\n  b\r\n"), "a\nb");
    assert_eq!(format_multiline_comment("\n\n"), "\n");
}

#[test]
fn long_comment_lines_are_cut() {
    assert_eq!(truncate_comment("abcdef", 3), "abc...");
    assert_eq!(truncate_comment("abc", 3), "abc");
    assert_eq!(truncate_comment("abcdef\nab\nabcd", 3), "abc...\nab\nabc...");
    assert_eq!(truncate_comment("", 3), "");
    assert_eq!(truncate_comment("abc", 0), "...");
    assert_eq!(truncate_comment("a\n\nb\n", 0), "...\n\n...");
    assert_eq!(truncate_comment("\u{e9}\u{e9}\u{e9}", 4), "\u{e9}\u{e9}...");
    assert_eq!(truncate_comment("\u{e9}\u{e9}\u{e9}", 6), "\u{e9}\u{e9}\u{e9}");
    assert_eq!(truncate_comment("\u{e9}\u{e9}\u{e9}", 5), "\u{e9}\u{e9}...");
    assert_eq!(truncate_comment("abc", usize::MAX), "abc");
}

#[test]
fn long_file_path_keeps_its_end() {
    assert_eq!(truncate_file_path("src/main.rs", 7), "...main.rs");
    assert_eq!(truncate_file_path("src/main.rs", 11), "src/main.rs");
    assert_eq!(truncate_file_path("src/main.rs", 100), "src/main.rs");
    assert_eq!(truncate_file_path("src/main.rs", 0), "...");
    assert_eq!(truncate_file_path("", 0), "");
    assert_eq!(truncate_file_path("d\u{e9}p\u{f4}t/a.rs", 8), "...\u{f4}t/a.rs");
    assert_eq!(truncate_file_path("d\u{e9}p\u{f4}t/a.rs", 7), "...t/a.rs");
    assert_eq!(truncate_file_path("d\u{e9}p\u{f4}t/a.rs", 5), ".../a.rs");
}

#[test]
fn link_wraps_the_text_in_escape_sequences() {
    assert_eq!(
        get_clickable_file_link("/w/a.rs", 12, "a.rs", EDITOR),
        "\x1b]8;;editor://open?file=/w/a.rs&line=12\x1b\\a.rs\x1b]8;;\x1b\\"
    );
    assert_eq!(get_clickable_file_link("p", 0, "", ""), "\x1b]8;;\x1b\\\x1b]8;;\x1b\\");
    assert_eq!(
        get_clickable_file_link("%%line%%", 3, "t", "%%file%%:%%line%%:%%file%%"),
        "\x1b]8;;3:3:3\x1b\\t\x1b]8;;\x1b\\"
    );
    assert_eq!(
        get_clickable_file_link("f", usize::MAX, "t", "x%%line%%"),
        format!("\x1b]8;;x{}\x1b\\t\x1b]8;;\x1b\\", usize::MAX)
    );
}

#[test]
fn table_shows_each_warning_without_a_terminal() {
    let table =
        formatted_table("src/a.py", "/w/src/a.py", &sample(), &options(true, false, false, 20), EDITOR)
            .unwrap();
    let header: Vec<(&str, Option<Color>, bool)> =
        table.header.iter().map(|c| (c.text.as_str(), c.color, c.bold)).collect();
    assert_eq!(
        header,
        vec![
            ("Line", Some(Color::Green), true),
            ("Type", Some(Color::Green), true),
            ("Due Date", Some(Color::Green), true),
            ("Owner", Some(Color::Green), true),
            ("src/a.py", Some(Color::Cyan), true),
        ]
    );
    let rows: Vec<Vec<(&str, Option<Color>, bool)>> = table
        .rows
        .iter()
        .map(|row| row.iter().map(|c| (c.text.as_str(), c.color, c.bold)).collect())
        .collect();
    assert_eq!(
        rows,
        vec![
            vec![
                ("3", Some(Color::Yellow), false),
                ("Format", Some(Color::Magenta), false),
                ("", None, false),
                ("", None, false),
                ("# TODO fix later", None, false),
            ],
            vec![
                ("5", Some(Color::Yellow), false),
                ("Overdue", Some(Color::Red), false),
                ("2020-01-01", Some(Color::Red), false),
                ("bob", None, false),
                ("# TODO: 2020-01-01 @...", None, false),
            ],
            vec![
                ("8", Some(Color::Yellow), false),
                ("Due Soon", Some(Color::Yellow), false),
                ("2999-12-31", Some(Color::Yellow), false),
                ("", None, false),
                ("/*\nFIXME: 2999-12-31 @c...\naway */", None, false),
            ],
        ]
    );
}

#[test]
fn table_links_to_the_editor_on_a_terminal() {
    let table =
        formatted_table("src/a.py", "/w/src/a.py", &sample(), &options(false, false, false, 4), EDITOR)
            .unwrap();
    assert_eq!(
        table.header[4].text,
        "\x1b]8;;editor://open?file=/w/src/a.py&line=3\x1b\\...a.py\x1b]8;;\x1b\\"
    );
    assert_eq!(
        table.rows[1][0].text,
        "\x1b]8;;editor://open?file=src/a.py&line=5\x1b\\5\x1b]8;;\x1b\\"
    );
    assert_eq!(table.rows[1][4].text, "# TO...");
}

#[test]
fn options_choose_the_warnings_shown() {
    let lines = |format_only: bool, due_only: bool| -> Vec<String> {
        match formatted_table("a", "/a", &sample(), &options(true, format_only, due_only, 9), EDITOR) {
            Some(table) => table.rows.iter().map(|row| row[0].text.clone()).collect(),
            None => Vec::new(),
        }
    };
    assert_eq!(lines(false, false), vec!["3", "5", "8"]);
    assert_eq!(lines(true, false), vec!["3"]);
    assert_eq!(lines(false, true), vec!["5", "8"]);
    assert_eq!(lines(true, true), vec!["3", "5", "8"]);
}

#[test]
fn file_without_shown_warnings_has_no_table() {
    assert!(formatted_table("a", "/a", &[], &options(true, false, false, 9), EDITOR).is_none());
    let only_format = vec![TodoWarning::InvalidFormat { line_number: 1, comment: "TODO".to_string() }];
    assert!(formatted_table("a", "/a", &only_format, &options(true, false, true, 9), EDITOR).is_none());
    assert!(formatted_table("a", "/a", &only_format, &options(true, true, false, 9), EDITOR).is_some());
    let only_due = &sample()[1..];
    assert!(formatted_table("a", "/a", only_due, &options(true, true, false, 9), EDITOR).is_none());
}

#[test]
fn header_links_to_the_first_warning_even_if_hidden() {
    let table = formatted_table("a", "/a", &sample(), &options(false, false, true, 9), "%%line%%").unwrap();
    assert_eq!(table.header[4].text, "\x1b]8;;3\x1b\\a\x1b]8;;\x1b\\");
    assert_eq!(table.rows.len(), 2);
}

#[test]
fn records_flatten_the_warnings() {
    let records = json_records("src/a.py", &sample());
    assert_eq!(records.len(), 3);

    assert_eq!(records[0].file, "src/a.py");
    assert_eq!(records[0].line, 3);
    assert_eq!(records[0].kind, "InvalidFormat");
    assert_eq!(records[0].due_date, None);
    assert_eq!(records[0].owner, None);
    assert_eq!(records[0].comment, "# TODO fix later");
    assert_eq!(records[0].days_until_due, None);

    assert_eq!(records[1].file, "src/a.py");
    assert_eq!(records[1].line, 5);
    assert_eq!(records[1].kind, "Overdue");
    assert_eq!(records[1].due_date.as_deref(), Some("2020-01-01"));
    assert_eq!(records[1].owner.as_deref(), Some("bob"));
    assert_eq!(records[1].comment, "# TODO: 2020-01-01 @bob old task");
    assert_eq!(records[1].days_until_due, None);

    assert_eq!(records[2].line, 8);
    assert_eq!(records[2].kind, "DueSoon");
    assert_eq!(records[2].due_date.as_deref(), Some("2999-12-31"));
    assert_eq!(records[2].owner, None);
    assert_eq!(records[2].days_until_due, Some(355_959));

    assert!(json_records("src/a.py", &[]).is_empty());
    assert_eq!(json_record("b", &sample()[0]).file, "b");
}

fn shown(value: &JsonValue) -> String {
    match value {
        JsonValue::Text(text) => format!("{:?}", text),
        JsonValue::Line(line) => format!("{}", line),
        JsonValue::Days(days) => format!("{}", days),
        JsonValue::Null => "null".to_string(),
    }
}

#[test]
fn record_shows_the_fields_of_its_kind() {
    let records = json_records("src/a.py", &sample());
    let fields: Vec<Vec<(String, String)>> = records
        .iter()
        .map(|record| {
            json_fields(record).iter().map(|f| (f.key.clone(), shown(&f.value))).collect()
        })
        .collect();
    let expected: Vec<Vec<(&str, &str)>> = vec![
        vec![
            ("file", "\"src/a.py\""),
            ("line", "3"),
            ("type", "\"InvalidFormat\""),
            ("comment", "\"# TODO fix later\""),
        ],
        vec![
            ("file", "\"src/a.py\""),
            ("line", "5"),
            ("type", "\"Overdue\""),
            ("due_date", "\"2020-01-01\""),
            ("owner", "\"bob\""),
            ("comment", "\"# TODO: 2020-01-01 @bob old task\""),
        ],
        vec![
            ("file", "\"src/a.py\""),
            ("line", "8"),
            ("type", "\"DueSoon\""),
            ("due_date", "\"2999-12-31\""),
            ("owner", "null"),
            ("comment", "\"/*\\n   FIXME: 2999-12-31 @carol far\\n   away */\""),
            ("days_until_due", "355959"),
        ],
    ];
    let expected: Vec<Vec<(String, String)>> = expected
        .iter()
        .map(|row| row.iter().map(|(k, v)| (k.to_string(), v.to_string())).collect())
        .collect();
    assert_eq!(fields, expected);
}
