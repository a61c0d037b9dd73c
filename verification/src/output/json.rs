//! The records of the structured report: one for each warning.

use crate::todo_analyzer::{cloned, opt_view, views, TodoWarning, TodoWarningView};
use vstd::prelude::*;

verus! {

/// One warning, flattened for a report.
#[derive(Debug)]
pub struct WarningRecord {
    /// The path of the file.
    pub file: String,
    /// The line of the comment.
    pub line: usize,
    /// `InvalidFormat`, `Overdue` or `DueSoon`.
    pub kind: String,
    /// The due date as `YYYY-MM-DD`; none for a format warning.
    pub due_date: Option<String>,
    /// The owner, where the warning has one.
    pub owner: Option<String>,
    /// The text of the comment.
    pub comment: String,
    /// The days left; only where the warning is `DueSoon`.
    pub days_until_due: Option<i64>,
}

/// What a `WarningRecord` holds.
pub struct WarningRecordView {
    pub file: Seq<char>,
    pub line: usize,
    pub kind: Seq<char>,
    pub due_date: Option<Seq<char>>,
    pub owner: Option<Seq<char>>,
    pub comment: Seq<char>,
    pub days_until_due: Option<i64>,
}

impl View for WarningRecord {
    type V = WarningRecordView;

    open spec fn view(&self) -> WarningRecordView {
        WarningRecordView {
            file: self.file@,
            line: self.line,
            kind: self.kind@,
            due_date: opt_view(self.due_date),
            owner: opt_view(self.owner),
            comment: self.comment@,
            days_until_due: self.days_until_due,
        }
    }
}

/// The record of a warning about the given file.
pub open spec fn record_of(file: Seq<char>, warning: TodoWarningView) -> WarningRecordView {
    match warning {
        TodoWarningView::InvalidFormat { line_number, comment } => WarningRecordView {
            file,
            line: line_number,
            kind: "InvalidFormat"@,
            due_date: None,
            owner: None,
            comment,
            days_until_due: None,
        },
        TodoWarningView::Overdue { line_number, due_date, owner, comment } => WarningRecordView {
            file,
            line: line_number,
            kind: "Overdue"@,
            due_date: Some(due_date.text()),
            owner,
            comment,
            days_until_due: None,
        },
        TodoWarningView::DueSoon {
            line_number,
            due_date,
            owner,
            comment,
            days_until_due,
        } => WarningRecordView {
            file,
            line: line_number,
            kind: "DueSoon"@,
            due_date: Some(due_date.text()),
            owner,
            comment,
            days_until_due: Some(days_until_due),
        },
    }
}

/// The records of the warnings of a file, in their order.
pub open spec fn records_of(file: Seq<char>, warnings: Seq<TodoWarningView>) -> Seq<
    WarningRecordView,
> {
    warnings.map_values(|warning: TodoWarningView| record_of(file, warning))
}

/// The record of one warning.
pub fn json_record(file_path: &str, warning: &TodoWarning) -> (record: WarningRecord)
    requires
        warning@.wf(),
    ensures
        record@ == record_of(file_path@, warning@),
{
    match warning {
        TodoWarning::InvalidFormat { line_number, comment } => WarningRecord {
            file: file_path.to_owned(),
            line: *line_number,
            kind: "InvalidFormat".to_string(),
            due_date: None,
            owner: None,
            comment: comment.clone(),
            days_until_due: None,
        },
        TodoWarning::Overdue { line_number, due_date, owner, comment } => WarningRecord {
            file: file_path.to_owned(),
            line: *line_number,
            kind: "Overdue".to_string(),
            due_date: Some(due_date.render()),
            owner: cloned(owner),
            comment: comment.clone(),
            days_until_due: None,
        },
        TodoWarning::DueSoon {
            line_number,
            due_date,
            owner,
            comment,
            days_until_due,
        } => WarningRecord {
            file: file_path.to_owned(),
            line: *line_number,
            kind: "DueSoon".to_string(),
            due_date: Some(due_date.render()),
            owner: cloned(owner),
            comment: comment.clone(),
            days_until_due: Some(*days_until_due),
        },
    }
}

/// The records of the warnings of one file, in the order of the warnings.
pub fn json_records(file_path: &str, warnings: &[TodoWarning]) -> (records: Vec<WarningRecord>)
    requires
        forall|i: int| 0 <= i < warnings@.len() ==> (#[trigger] warnings@[i])@.wf(),
    ensures
        views(records@) == records_of(file_path@, views(warnings@)),
{
    let mut records: Vec<WarningRecord> = Vec::new();
    let mut at: usize = 0;
    while at < warnings.len()
        invariant
            at <= warnings@.len(),
            records@.len() == at,
            forall|i: int| 0 <= i < warnings@.len() ==> (#[trigger] warnings@[i])@.wf(),
            forall|i: int|
                0 <= i < at ==> (#[trigger] records@[i])@ == record_of(
                    file_path@,
                    warnings@[i]@,
                ),
        decreases warnings@.len() - at,
    {
        records.push(json_record(file_path, &warnings[at]));
        at += 1;
    }
    records
}

/// The value of one field of a record.
#[derive(Debug)]
pub enum JsonValue {
    /// A text.
    Text(String),
    /// A line number.
    Line(usize),
    /// A number of days.
    Days(i64),
    /// No value.
    Null,
}

/// What a `JsonValue` holds.
pub enum JsonValueView {
    Text(Seq<char>),
    Line(usize),
    Days(i64),
    Null,
}

impl View for JsonValue {
    type V = JsonValueView;

    open spec fn view(&self) -> JsonValueView {
        match *self {
            JsonValue::Text(text) => JsonValueView::Text(text@),
            JsonValue::Line(line) => JsonValueView::Line(line),
            JsonValue::Days(days) => JsonValueView::Days(days),
            JsonValue::Null => JsonValueView::Null,
        }
    }
}

/// One field of a record: its key and its value.
#[derive(Debug)]
pub struct JsonField {
    pub key: String,
    pub value: JsonValue,
}

impl View for JsonField {
    type V = (Seq<char>, JsonValueView);

    open spec fn view(&self) -> (Seq<char>, JsonValueView) {
        (self.key@, self.value@)
    }
}

/// The value of an optional text: the text, or no value.
pub open spec fn text_or_null(text: Option<Seq<char>>) -> JsonValueView {
    match text {
        Some(text) => JsonValueView::Text(text),
        None => JsonValueView::Null,
    }
}

/// The fields that a report shows of a record, in their order: `file`,
/// `line` and `type`; `due_date` and `owner` where the record has a due date,
/// the owner without a value where there is none; `comment`; and
/// `days_until_due` where the record counts days.
pub open spec fn fields_of(record: WarningRecordView) -> Seq<(Seq<char>, JsonValueView)> {
    seq![
        ("file"@, JsonValueView::Text(record.file)),
        ("line"@, JsonValueView::Line(record.line)),
        ("type"@, JsonValueView::Text(record.kind)),
    ] + match record.due_date {
        Some(due_date) => seq![
            ("due_date"@, JsonValueView::Text(due_date)),
            ("owner"@, text_or_null(record.owner)),
        ],
        None => seq![],
    } + seq![("comment"@, JsonValueView::Text(record.comment))] + match record.days_until_due {
        Some(days) => seq![("days_until_due"@, JsonValueView::Days(days))],
        None => seq![],
    }
}

fn field(key: &str, value: JsonValue) -> (f: JsonField)
    ensures
        f@ == (key@, value@),
{
    JsonField { key: key.to_owned(), value }
}

/// The fields that a report shows of a record.
pub fn json_fields(record: &WarningRecord) -> (fields: Vec<JsonField>)
    ensures
        views(fields@) == fields_of(record@),
{
    let mut fields: Vec<JsonField> = Vec::new();
    fields.push(field("file", JsonValue::Text(record.file.clone())));
    fields.push(field("line", JsonValue::Line(record.line)));
    fields.push(field("type", JsonValue::Text(record.kind.clone())));
    match &record.due_date {
        Some(due_date) => {
            fields.push(field("due_date", JsonValue::Text(due_date.clone())));
            let owner = match &record.owner {
                Some(name) => JsonValue::Text(name.clone()),
                None => JsonValue::Null,
            };
            fields.push(field("owner", owner));
        },
        None => {},
    }
    fields.push(field("comment", JsonValue::Text(record.comment.clone())));
    match record.days_until_due {
        Some(days) => {
            fields.push(field("days_until_due", JsonValue::Days(days)));
        },
        None => {},
    }
    assert(views(fields@) =~= fields_of(record@));
    fields
}

} // verus!
