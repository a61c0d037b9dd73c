//! The table that shows the warnings of one file.

use crate::cli::Cli;
use crate::text::{
    byte_len, chars_of, count_fitting_prefix, count_fitting_suffix, decimal, fitting_prefix,
    fitting_suffix, join_lines, joined, lines, push_decimal, replace_all, replaced, rows,
    split_lines, string_from_chars, trim, trimmed,
};
use crate::todo_analyzer::{views, TodoWarning, TodoWarningView};
use vstd::prelude::*;
use vstd::slice::{slice_subrange, slice_to_vec};

verus! {

/// The colours that the table uses.
#[derive(Clone, Copy, Debug, PartialEq, Eq, Structural)]
pub enum Color {
    Green,
    Cyan,
    Yellow,
    Magenta,
    Red,
}

/// One cell of the table.
#[derive(Debug)]
pub struct Cell {
    pub text: String,
    pub color: Option<Color>,
    pub bold: bool,
}

/// What a `Cell` holds.
pub struct CellView {
    pub text: Seq<char>,
    pub color: Option<Color>,
    pub bold: bool,
}

impl View for Cell {
    type V = CellView;

    open spec fn view(&self) -> CellView {
        CellView { text: self.text@, color: self.color, bold: self.bold }
    }
}

/// The table of one file: a header and a row for each warning shown.
#[derive(Debug)]
pub struct FileTable {
    pub header: Vec<Cell>,
    pub rows: Vec<Vec<Cell>>,
}

/// What a `FileTable` holds.
pub struct FileTableView {
    pub header: Seq<CellView>,
    pub rows: Seq<Seq<CellView>>,
}

/// What the cells of each row hold.
pub open spec fn row_views(rows: Seq<Vec<Cell>>) -> Seq<Seq<CellView>> {
    rows.map_values(|row: Vec<Cell>| views(row@))
}

impl View for FileTable {
    type V = FileTableView;

    open spec fn view(&self) -> FileTableView {
        FileTableView { header: views(self.header@), rows: row_views(self.rows@) }
    }
}

/// Three full stops, which mark where text was cut.
pub open spec fn ellipsis() -> Seq<char> {
    seq!['.', '.', '.']
}

/// The comment with each of its lines trimmed of white space.
pub open spec fn formatted_comment(comment: Seq<char>) -> Seq<char> {
    join_lines(lines(comment).map_values(|line: Seq<char>| trim(line)))
}

/// A line cut to at most `max` bytes: a line that is longer keeps as many of
/// its first characters as fit into `max` bytes, followed by an ellipsis.
pub open spec fn shortened_line(line: Seq<char>, max: nat) -> Seq<char> {
    if byte_len(line) > max {
        line.take(fitting_prefix(line, max) as int) + ellipsis()
    } else {
        line
    }
}

/// The comment with each of its lines cut to `max` bytes.
pub open spec fn shortened_comment(comment: Seq<char>, max: nat) -> Seq<char> {
    join_lines(lines(comment).map_values(|line: Seq<char>| shortened_line(line, max)))
}

/// A path cut to its last `max` bytes: a path that is longer keeps as many of
/// its last characters as fit into `max` bytes, after an ellipsis.
pub open spec fn shortened_path(path: Seq<char>, max: nat) -> Seq<char> {
    if byte_len(path) > max {
        ellipsis() + path.skip(path.len() - fitting_suffix(path, max))
    } else {
        path
    }
}

/// The text `%%file%%`, which stands for the path in an editor URL.
pub open spec fn file_placeholder() -> Seq<char> {
    seq!['%', '%', 'f', 'i', 'l', 'e', '%', '%']
}

/// The text `%%line%%`, which stands for the line in an editor URL.
pub open spec fn line_placeholder() -> Seq<char> {
    seq!['%', '%', 'l', 'i', 'n', 'e', '%', '%']
}

/// The escape sequence that opens a terminal hyperlink; the URL follows it.
pub open spec fn link_start() -> Seq<char> {
    seq!['\x1b', ']', '8', ';', ';']
}

/// The string terminator that ends the URL, and the link.
pub open spec fn link_end() -> Seq<char> {
    seq!['\x1b', '\\']
}

/// The URL that opens the file at the line: the editor URL with the path and
/// the line number in place of their placeholders.
pub open spec fn editor_link_url(file_path: Seq<char>, line_number: usize, editor_url: Seq<char>) -> Seq<
    char,
> {
    replace_all(
        replace_all(editor_url, file_placeholder(), file_path),
        line_placeholder(),
        decimal(line_number as nat),
    )
}

/// A terminal hyperlink that shows `display_text` and opens the file at the
/// line.
pub open spec fn clickable_file_link(
    file_path: Seq<char>,
    line_number: usize,
    display_text: Seq<char>,
    editor_url: Seq<char>,
) -> Seq<char> {
    link_start() + editor_link_url(file_path, line_number, editor_url) + link_end() + display_text
        + link_start() + link_end()
}

/// Trims each line of the comment.
pub fn format_multiline_comment(comment: &str) -> (r: String)
    ensures
        r@ == formatted_comment(comment@),
{
    let chars = chars_of(comment);
    string_from_chars(format_lines(chars.as_slice()).as_slice())
}

fn format_lines(comment: &[char]) -> (r: Vec<char>)
    ensures
        r@ == formatted_comment(comment@),
{
    let found = split_lines(comment);
    let mut trimmed_lines: Vec<Vec<char>> = Vec::new();
    let mut at: usize = 0;
    while at < found.len()
        invariant
            at <= found@.len(),
            trimmed_lines@.len() == at,
            forall|i: int| 0 <= i < at ==> (#[trigger] trimmed_lines@[i])@ == trim(found@[i]@),
        decreases found@.len() - at,
    {
        trimmed_lines.push(slice_to_vec(trimmed(found[at].as_slice())));
        at += 1;
    }
    assert(rows(trimmed_lines@) =~= rows(found@).map_values(|line: Seq<char>| trim(line)));
    joined(&trimmed_lines)
}

fn shorten_line(line: &[char], max_length: usize) -> (r: Vec<char>)
    ensures
        r@ == shortened_line(line@, max_length as nat),
{
    let kept = count_fitting_prefix(line, max_length);
    let mut r = slice_to_vec(slice_subrange(line, 0, kept));
    if kept < line.len() {
        r.push('.');
        r.push('.');
        r.push('.');
    }
    r
}

fn shorten_lines(comment: &[char], max_length: usize) -> (r: Vec<char>)
    ensures
        r@ == shortened_comment(comment@, max_length as nat),
{
    let found = split_lines(comment);
    let mut short_lines: Vec<Vec<char>> = Vec::new();
    let mut at: usize = 0;
    while at < found.len()
        invariant
            at <= found@.len(),
            short_lines@.len() == at,
            forall|i: int|
                0 <= i < at ==> (#[trigger] short_lines@[i])@ == shortened_line(
                    found@[i]@,
                    max_length as nat,
                ),
        decreases found@.len() - at,
    {
        short_lines.push(shorten_line(found[at].as_slice(), max_length));
        at += 1;
    }
    assert(rows(short_lines@) =~= rows(found@).map_values(
        |line: Seq<char>| shortened_line(line, max_length as nat),
    ));
    joined(&short_lines)
}

/// Cuts each line of the comment to `max_length` bytes.
pub fn truncate_comment(comment: &str, max_length: usize) -> (r: String)
    ensures
        r@ == shortened_comment(comment@, max_length as nat),
{
    let chars = chars_of(comment);
    string_from_chars(shorten_lines(chars.as_slice(), max_length).as_slice())
}

fn shorten_path(path: &[char], max_length: usize) -> (r: Vec<char>)
    ensures
        r@ == shortened_path(path@, max_length as nat),
{
    let kept = count_fitting_suffix(path, max_length);
    if kept < path.len() {
        let mut r: Vec<char> = Vec::new();
        r.push('.');
        r.push('.');
        r.push('.');
        r.extend_from_slice(slice_subrange(path, path.len() - kept, path.len()));
        r
    } else {
        slice_to_vec(path)
    }
}

/// Cuts the path to its last `max_length` bytes.
pub fn truncate_file_path(file_path: &str, max_length: usize) -> (r: String)
    ensures
        r@ == shortened_path(file_path@, max_length as nat),
{
    let chars = chars_of(file_path);
    string_from_chars(shorten_path(chars.as_slice(), max_length).as_slice())
}

fn link_chars(file_path: &[char], line_number: usize, display_text: &[char], editor_url: &[char]) -> (r:
    Vec<char>)
    ensures
        r@ == clickable_file_link(file_path@, line_number, display_text@, editor_url@),
{
    let file_mark: Vec<char> = vec!['%', '%', 'f', 'i', 'l', 'e', '%', '%'];
    let line_mark: Vec<char> = vec!['%', '%', 'l', 'i', 'n', 'e', '%', '%'];
    let mut number: Vec<char> = Vec::new();
    push_decimal(&mut number, line_number);
    let with_file = replaced(editor_url, file_mark.as_slice(), file_path);
    let url = replaced(with_file.as_slice(), line_mark.as_slice(), number.as_slice());
    let mut r: Vec<char> = vec!['\x1b', ']', '8', ';', ';'];
    r.extend_from_slice(url.as_slice());
    r.push('\x1b');
    r.push('\\');
    r.extend_from_slice(display_text);
    r.push('\x1b');
    r.push(']');
    r.push('8');
    r.push(';');
    r.push(';');
    r.push('\x1b');
    r.push('\\');
    r
}

/// A terminal hyperlink that shows `display_text` and opens the file at the
/// line in the editor that `editor_url` addresses.
pub fn get_clickable_file_link(
    file_path: &str,
    line_number: usize,
    display_text: &str,
    editor_url: &str,
) -> (r: String)
    ensures
        r@ == clickable_file_link(file_path@, line_number, display_text@, editor_url@),
{
    let path = chars_of(file_path);
    let display = chars_of(display_text);
    let url = chars_of(editor_url);
    string_from_chars(
        link_chars(path.as_slice(), line_number, display.as_slice(), url.as_slice()).as_slice(),
    )
}

/// Whether the options ask for the warning to be shown: a format warning
/// unless only due dates are checked, a dated warning unless only formats are.
pub open spec fn is_shown(warning: TodoWarningView, cli: Cli) -> bool {
    match warning {
        TodoWarningView::InvalidFormat { .. } => cli.check_format_only || !cli.check_due_only,
        _ => cli.check_due_only || !cli.check_format_only,
    }
}

/// A cell of the given text and style.
pub open spec fn cell(text: Seq<char>, color: Option<Color>, bold: bool) -> CellView {
    CellView { text, color, bold }
}

/// The text of the cell that shows the line: the number, as a link to the
/// line where the output is a terminal.
pub open spec fn line_text(
    file_path: Seq<char>,
    line_number: usize,
    cli: Cli,
    editor_url: Seq<char>,
) -> Seq<char> {
    if cli.no_tty {
        decimal(line_number as nat)
    } else {
        clickable_file_link(file_path, line_number, decimal(line_number as nat), editor_url)
    }
}

/// The text of the cell that shows the comment: its lines trimmed, then cut
/// to the length that the options give.
pub open spec fn comment_text(comment: Seq<char>, cli: Cli) -> Seq<char> {
    shortened_comment(formatted_comment(comment), cli.max_comment_length as nat)
}

/// The owner, or nothing.
pub open spec fn owner_text(owner: Option<Seq<char>>) -> Seq<char> {
    match owner {
        Some(name) => name,
        None => Seq::empty(),
    }
}

/// The row of a warning: line, type, due date, owner and comment.
pub open spec fn row_of(
    warning: TodoWarningView,
    file_path: Seq<char>,
    cli: Cli,
    editor_url: Seq<char>,
) -> Seq<CellView> {
    let line = cell(
        line_text(file_path, warning.line_number(), cli, editor_url),
        Some(Color::Yellow),
        false,
    );
    match warning {
        TodoWarningView::InvalidFormat { comment, .. } => seq![
            line,
            cell("Format"@, Some(Color::Magenta), false),
            cell(Seq::empty(), None, false),
            cell(Seq::empty(), None, false),
            cell(comment_text(comment, cli), None, false),
        ],
        TodoWarningView::Overdue { due_date, owner, comment, .. } => seq![
            line,
            cell("Overdue"@, Some(Color::Red), false),
            cell(due_date.text(), Some(Color::Red), false),
            cell(owner_text(owner), None, false),
            cell(comment_text(comment, cli), None, false),
        ],
        TodoWarningView::DueSoon { due_date, owner, comment, .. } => seq![
            line,
            cell("Due Soon"@, Some(Color::Yellow), false),
            cell(due_date.text(), Some(Color::Yellow), false),
            cell(owner_text(owner), None, false),
            cell(comment_text(comment, cli), None, false),
        ],
    }
}

/// The text of the last header cell: the path of the file, as a link to the
/// first warning where the output is a terminal.
pub open spec fn file_text(
    file_path: Seq<char>,
    absolute_path: Seq<char>,
    first_line: usize,
    cli: Cli,
    editor_url: Seq<char>,
) -> Seq<char> {
    if cli.no_tty {
        file_path
    } else {
        clickable_file_link(
            absolute_path,
            first_line,
            shortened_path(file_path, cli.max_comment_length as nat),
            editor_url,
        )
    }
}

/// The header of the table of a file.
pub open spec fn header_of(
    file_path: Seq<char>,
    absolute_path: Seq<char>,
    first_line: usize,
    cli: Cli,
    editor_url: Seq<char>,
) -> Seq<CellView> {
    seq![
        cell("Line"@, Some(Color::Green), true),
        cell("Type"@, Some(Color::Green), true),
        cell("Due Date"@, Some(Color::Green), true),
        cell("Owner"@, Some(Color::Green), true),
        cell(
            file_text(file_path, absolute_path, first_line, cli, editor_url),
            Some(Color::Cyan),
            true,
        ),
    ]
}

/// The rows of the warnings that are shown, in the order of the warnings.
pub open spec fn rows_of(
    warnings: Seq<TodoWarningView>,
    file_path: Seq<char>,
    cli: Cli,
    editor_url: Seq<char>,
) -> Seq<Seq<CellView>> {
    warnings.filter_map(
        |warning: TodoWarningView|
            if is_shown(warning, cli) {
                Some(row_of(warning, file_path, cli, editor_url))
            } else {
                None
            },
    )
}

/// The table of a file, if any of its warnings is shown. The link in the
/// header leads to the first warning of the file, shown or not.
pub open spec fn table_of(
    file_path: Seq<char>,
    absolute_path: Seq<char>,
    warnings: Seq<TodoWarningView>,
    cli: Cli,
    editor_url: Seq<char>,
) -> Option<FileTableView> {
    let rows = rows_of(warnings, file_path, cli, editor_url);
    if rows.len() == 0 {
        None
    } else {
        Some(
            FileTableView {
                header: header_of(
                    file_path,
                    absolute_path,
                    warnings[0].line_number(),
                    cli,
                    editor_url,
                ),
                rows,
            },
        )
    }
}

fn plain_cell(text: String) -> (c: Cell)
    ensures
        c@ == cell(text@, None, false),
{
    Cell { text, color: None, bold: false }
}

fn colored_cell(text: String, color: Color, bold: bool) -> (c: Cell)
    ensures
        c@ == cell(text@, Some(color), bold),
{
    Cell { text, color: Some(color), bold }
}

fn line_cell(file_path: &[char], line_number: usize, cli: &Cli, editor_url: &[char]) -> (c: Cell)
    ensures
        c@ == cell(
            line_text(file_path@, line_number, *cli, editor_url@),
            Some(Color::Yellow),
            false,
        ),
{
    let mut number: Vec<char> = Vec::new();
    push_decimal(&mut number, line_number);
    let text = if cli.no_tty {
        string_from_chars(number.as_slice())
    } else {
        string_from_chars(
            link_chars(file_path, line_number, number.as_slice(), editor_url).as_slice(),
        )
    };
    colored_cell(text, Color::Yellow, false)
}

fn comment_cell(comment: &str, cli: &Cli) -> (c: Cell)
    ensures
        c@ == cell(comment_text(comment@, *cli), None, false),
{
    let chars = chars_of(comment);
    let formatted = format_lines(chars.as_slice());
    plain_cell(
        string_from_chars(shorten_lines(formatted.as_slice(), cli.max_comment_length).as_slice()),
    )
}

fn owner_cell(owner: &Option<String>) -> (c: Cell)
    ensures
        c@ == cell(owner_text(crate::todo_analyzer::opt_view(*owner)), None, false),
{
    match owner {
        Some(name) => plain_cell(name.clone()),
        None => plain_cell(String::new()),
    }
}

fn row_for(warning: &TodoWarning, file_path: &[char], cli: &Cli, editor_url: &[char]) -> (row: Vec<
    Cell,
>)
    requires
        warning@.wf(),
    ensures
        views(row@) == row_of(warning@, file_path@, *cli, editor_url@),
{
    let mut row: Vec<Cell> = Vec::new();
    row.push(line_cell(file_path, warning.line_number(), cli, editor_url));
    match warning {
        TodoWarning::InvalidFormat { comment, .. } => {
            row.push(colored_cell("Format".to_string(), Color::Magenta, false));
            row.push(plain_cell(String::new()));
            row.push(plain_cell(String::new()));
            row.push(comment_cell(comment.as_str(), cli));
        },
        TodoWarning::Overdue { due_date, owner, comment, .. } => {
            row.push(colored_cell("Overdue".to_string(), Color::Red, false));
            row.push(colored_cell(due_date.render(), Color::Red, false));
            row.push(owner_cell(owner));
            row.push(comment_cell(comment.as_str(), cli));
        },
        TodoWarning::DueSoon { due_date, owner, comment, .. } => {
            row.push(colored_cell("Due Soon".to_string(), Color::Yellow, false));
            row.push(colored_cell(due_date.render(), Color::Yellow, false));
            row.push(owner_cell(owner));
            row.push(comment_cell(comment.as_str(), cli));
        },
    }
    row
}

fn shown(warning: &TodoWarning, cli: &Cli) -> (r: bool)
    ensures
        r == is_shown(warning@, *cli),
{
    match warning {
        TodoWarning::InvalidFormat { .. } => cli.check_format_only || !cli.check_due_only,
        _ => cli.check_due_only || !cli.check_format_only,
    }
}

/// Lays out the warnings of one file as a table.
///
/// `absolute_path` is the file's path made absolute, for the link in the
/// header. There is no table where no warning is shown.
pub fn formatted_table(
    file_path: &str,
    absolute_path: &str,
    warnings: &[TodoWarning],
    cli: &Cli,
    editor_url: &str,
) -> (r: Option<FileTable>)
    requires
        forall|i: int| 0 <= i < warnings@.len() ==> (#[trigger] warnings@[i])@.wf(),
    ensures
        match r {
            Some(table) => table_of(
                file_path@,
                absolute_path@,
                views(warnings@),
                *cli,
                editor_url@,
            ) == Some(table@),
            None => table_of(file_path@, absolute_path@, views(warnings@), *cli, editor_url@)
                is None,
        },
{
    let path = chars_of(file_path);
    let url = chars_of(editor_url);
    let mut rows: Vec<Vec<Cell>> = Vec::new();
    let mut at: usize = 0;
    while at < warnings.len()
        invariant
            at <= warnings@.len(),
            path@ == file_path@,
            url@ == editor_url@,
            forall|i: int| 0 <= i < warnings@.len() ==> (#[trigger] warnings@[i])@.wf(),
            row_views(rows@) == rows_of(
                views(warnings@.take(at as int)),
                file_path@,
                *cli,
                editor_url@,
            ),
        decreases warnings@.len() - at,
    {
        let ghost before = views(warnings@.take(at as int));
        let ghost after = views(warnings@.take(at + 1));
        assert(after.drop_last() == before);
        if shown(&warnings[at], cli) {
            let row = row_for(&warnings[at], path.as_slice(), cli, url.as_slice());
            rows.push(row);
        }
        at += 1;
    }
    assert(warnings@.take(at as int) == warnings@);
    if rows.len() == 0 {
        return None;
    }
    let first_line = warnings[0].line_number();
    let file = if cli.no_tty {
        string_from_chars(path.as_slice())
    } else {
        let absolute = chars_of(absolute_path);
        let display = shorten_path(path.as_slice(), cli.max_comment_length);
        string_from_chars(
            link_chars(absolute.as_slice(), first_line, display.as_slice(), url.as_slice())
                .as_slice(),
        )
    };
    let mut header: Vec<Cell> = Vec::new();
    header.push(colored_cell("Line".to_string(), Color::Green, true));
    header.push(colored_cell("Type".to_string(), Color::Green, true));
    header.push(colored_cell("Due Date".to_string(), Color::Green, true));
    header.push(colored_cell("Owner".to_string(), Color::Green, true));
    header.push(colored_cell(file, Color::Cyan, true));
    assert(views(header@) =~= header_of(
        file_path@,
        absolute_path@,
        first_line,
        *cli,
        editor_url@,
    ));
    Some(FileTable { header, rows })
}

} // verus!
