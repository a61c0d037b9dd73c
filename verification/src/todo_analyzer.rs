//! Annotations, the warnings they are classified into, and the analyzer that
//! finds them in a source file.

use crate::annotation::{contains_marker, decode, find_shape, has_marker, read_date};
use crate::date::{Date, Moment};
use crate::error::{AnalysisError, AnalysisErrorView};
use crate::languages::LanguageConfig;
use crate::syntax::{
    grammar_fits, match_spans, parse_source, parsed_tree, parser_grammar, query_matches,
    run_query, NodeSpan,
};
use crate::text::{chars_of, string_from_chars, trim, trimmed, utf8_text};
use tree_sitter::{Language, Parser, Query, Tree};
use vstd::hash_map::StringHashMap;
use vstd::prelude::*;
use vstd::slice::slice_subrange;
use vstd::utf8::{decode_utf8, encode_utf8_decode_utf8, valid_utf8};

verus! {

/// A comment as it stands in a source file.
#[derive(Debug)]
pub struct RawComment {
    /// The text of the comment.
    pub text: String,
    /// The line on which the comment starts; the first line is 1.
    pub line_number: usize,
}

/// A comment that carries a marker, decoded.
#[derive(Debug)]
pub struct TodoItem {
    pub text: String,
    pub due_date: Option<Date>,
    pub owner: Option<String>,
    pub line_number: usize,
    pub is_valid_format: bool,
}

/// What a `TodoItem` holds.
pub struct TodoItemView {
    pub text: Seq<char>,
    pub due_date: Option<Date>,
    pub owner: Option<Seq<char>>,
    pub line_number: usize,
    pub is_valid_format: bool,
}

/// What is reported about one marker comment.
#[derive(Debug)]
pub enum TodoWarning {
    /// The marker is there, the strict format is not.
    InvalidFormat { line_number: usize, comment: String },
    /// The due date lies before the evaluation instant.
    Overdue { line_number: usize, due_date: Date, owner: Option<String>, comment: String },
    /// The due date is still to come, in `days_until_due` days.
    DueSoon {
        line_number: usize,
        due_date: Date,
        owner: Option<String>,
        comment: String,
        days_until_due: i64,
    },
}

/// What a `TodoWarning` holds.
pub enum TodoWarningView {
    InvalidFormat { line_number: usize, comment: Seq<char> },
    Overdue { line_number: usize, due_date: Date, owner: Option<Seq<char>>, comment: Seq<char> },
    DueSoon {
        line_number: usize,
        due_date: Date,
        owner: Option<Seq<char>>,
        comment: Seq<char>,
        days_until_due: i64,
    },
}

/// The characters of an optional string.
pub open spec fn opt_view(s: Option<String>) -> Option<Seq<char>> {
    match s {
        Some(s) => Some(s@),
        None => None,
    }
}

impl View for RawComment {
    type V = (Seq<char>, usize);

    open spec fn view(&self) -> (Seq<char>, usize) {
        (self.text@, self.line_number)
    }
}

impl View for TodoItem {
    type V = TodoItemView;

    open spec fn view(&self) -> TodoItemView {
        TodoItemView {
            text: self.text@,
            due_date: self.due_date,
            owner: opt_view(self.owner),
            line_number: self.line_number,
            is_valid_format: self.is_valid_format,
        }
    }
}

impl View for TodoWarning {
    type V = TodoWarningView;

    open spec fn view(&self) -> TodoWarningView {
        match *self {
            TodoWarning::InvalidFormat { line_number, comment } => TodoWarningView::InvalidFormat {
                line_number,
                comment: comment@,
            },
            TodoWarning::Overdue {
                line_number,
                due_date,
                owner,
                comment,
            } => TodoWarningView::Overdue {
                line_number,
                due_date,
                owner: opt_view(owner),
                comment: comment@,
            },
            TodoWarning::DueSoon {
                line_number,
                due_date,
                owner,
                comment,
                days_until_due,
            } => TodoWarningView::DueSoon {
                line_number,
                due_date,
                owner: opt_view(owner),
                comment: comment@,
                days_until_due,
            },
        }
    }
}

impl TodoItemView {
    /// A well-formed item has a due date and an owner; a malformed one has
    /// neither.
    pub open spec fn wf(self) -> bool {
        if self.is_valid_format {
            self.due_date matches Some(date) && date.wf() && self.owner is Some
        } else {
            self.due_date is None && self.owner is None
        }
    }

    /// The due date by which the item is classified: that of an item whose
    /// format is valid and whose date is a day of the calendar.
    pub open spec fn dated(self) -> Option<Date> {
        match self.due_date {
            Some(date) if self.is_valid_format && date.wf() => Some(date),
            _ => None,
        }
    }
}

impl TodoWarningView {
    /// The due date of a warning that has one is a day of the calendar.
    pub open spec fn wf(self) -> bool {
        match self {
            TodoWarningView::InvalidFormat { .. } => true,
            TodoWarningView::Overdue { due_date, .. } => due_date.wf(),
            TodoWarningView::DueSoon { due_date, .. } => due_date.wf(),
        }
    }

    /// The line of the comment the warning is about.
    pub open spec fn line_number(self) -> usize {
        match self {
            TodoWarningView::InvalidFormat { line_number, .. } => line_number,
            TodoWarningView::Overdue { line_number, .. } => line_number,
            TodoWarningView::DueSoon { line_number, .. } => line_number,
        }
    }
}

/// The annotation that a comment with the given text, on the given line,
/// carries: none without a marker; a well-formed one, with the text kept as it
/// is, where the text decodes; else a malformed one with the trimmed text.
pub open spec fn annotation(text: Seq<char>, line_number: usize) -> Option<TodoItemView> {
    if !contains_marker(text) {
        None
    } else {
        match decode(text) {
            Some((date, owner)) => Some(
                TodoItemView {
                    text,
                    due_date: Some(date),
                    owner: Some(owner),
                    line_number,
                    is_valid_format: true,
                },
            ),
            None => Some(
                TodoItemView {
                    text: trim(text),
                    due_date: None,
                    owner: None,
                    line_number,
                    is_valid_format: false,
                },
            ),
        }
    }
}

/// The warning that an annotation gives at the instant `now`.
///
/// An item without a usable date is a format warning. A dated item is overdue
/// when midnight of its due date lies strictly before `now`; otherwise it is
/// due soon, in as many days as lie between the day of `now` and the due
/// date.
pub open spec fn classification(item: TodoItemView, now: Moment) -> TodoWarningView {
    match item.dated() {
        None => TodoWarningView::InvalidFormat {
            line_number: item.line_number,
            comment: item.text,
        },
        Some(due_date) => if now.is_past(due_date) {
            TodoWarningView::Overdue {
                line_number: item.line_number,
                due_date,
                owner: item.owner,
                comment: item.text,
            }
        } else {
            TodoWarningView::DueSoon {
                line_number: item.line_number,
                due_date,
                owner: item.owner,
                comment: item.text,
                days_until_due: now.days_until(due_date) as i64,
            }
        },
    }
}

impl TodoWarning {
    /// The line of the comment the warning is about.
    pub fn line_number(&self) -> (n: usize)
        ensures
            n == self@.line_number(),
    {
        match self {
            TodoWarning::InvalidFormat { line_number, .. } => *line_number,
            TodoWarning::Overdue { line_number, .. } => *line_number,
            TodoWarning::DueSoon { line_number, .. } => *line_number,
        }
    }
}

/// A copy of an optional string.
pub fn cloned(owner: &Option<String>) -> (r: Option<String>)
    ensures
        opt_view(r) == opt_view(*owner),
{
    match owner {
        Some(name) => Some(name.clone()),
        None => None,
    }
}

/// Decodes one comment.
pub fn annotate(comment: &RawComment) -> (r: Option<TodoItem>)
    ensures
        match r {
            Some(item) => annotation(comment.text@, comment.line_number) == Some(item@),
            None => annotation(comment.text@, comment.line_number) is None,
        },
        r matches Some(item) ==> item@.wf(),
{
    let chars = chars_of(comment.text.as_str());
    let s = chars.as_slice();
    if !has_marker(s) {
        return None;
    }
    if let Some(shape) = find_shape(s) {
        if let Some(date) = read_date(s, shape.date) {
            let owner = string_from_chars(slice_subrange(s, shape.owner, shape.owner_end));
            return Some(
                TodoItem {
                    text: comment.text.clone(),
                    due_date: Some(date),
                    owner: Some(owner),
                    line_number: comment.line_number,
                    is_valid_format: true,
                },
            );
        }
    }
    Some(
        TodoItem {
            text: string_from_chars(trimmed(s)),
            due_date: None,
            owner: None,
            line_number: comment.line_number,
            is_valid_format: false,
        },
    )
}

/// Classifies one annotation at the instant `now`.
pub fn classify(item: &TodoItem, now: &Moment) -> (w: TodoWarning)
    ensures
        w@ == classification(item@, *now),
        w@.wf(),
{
    let dated = match item.due_date {
        Some(date) => if item.is_valid_format {
            Date::new(date.year, date.month, date.day)
        } else {
            None
        },
        None => None,
    };
    match dated {
        None => TodoWarning::InvalidFormat {
            line_number: item.line_number,
            comment: item.text.clone(),
        },
        Some(due_date) => {
            let days: i64 = due_date.days_from_ce() as i64 - now.day as i64;
            if days < 0 || (days == 0 && (now.second > 0 || now.nanosecond > 0)) {
                TodoWarning::Overdue {
                    line_number: item.line_number,
                    due_date,
                    owner: cloned(&item.owner),
                    comment: item.text.clone(),
                }
            } else {
                TodoWarning::DueSoon {
                    line_number: item.line_number,
                    due_date,
                    owner: cloned(&item.owner),
                    comment: item.text.clone(),
                    days_until_due: days,
                }
            }
        },
    }
}

/// What the elements of a sequence hold.
pub open spec fn views<T: View>(s: Seq<T>) -> Seq<T::V> {
    s.map_values(|t: T| t@)
}

/// The annotations of a sequence of comments, in their order; comments without
/// a marker give none.
pub open spec fn annotations(comments: Seq<(Seq<char>, usize)>) -> Seq<TodoItemView> {
    comments.filter_map(|c: (Seq<char>, usize)| annotation(c.0, c.1))
}

/// One warning for each annotation, in their order.
pub open spec fn classifications(items: Seq<TodoItemView>, now: Moment) -> Seq<TodoWarningView> {
    items.map_values(|item: TodoItemView| classification(item, now))
}

/// Decodes the comments of one file.
pub fn annotate_all(comments: &[RawComment]) -> (items: Vec<TodoItem>)
    ensures
        views(items@) == annotations(views(comments@)),
        forall|i: int| 0 <= i < items@.len() ==> (#[trigger] items@[i])@.wf(),
{
    let mut items: Vec<TodoItem> = Vec::new();
    let mut at: usize = 0;
    while at < comments.len()
        invariant
            at <= comments@.len(),
            views(items@) == annotations(views(comments@.take(at as int))),
            forall|i: int| 0 <= i < items@.len() ==> (#[trigger] items@[i])@.wf(),
        decreases comments@.len() - at,
    {
        let ghost before = views(comments@.take(at as int));
        let ghost after = views(comments@.take(at + 1));
        assert(after.drop_last() == before);
        if let Some(item) = annotate(&comments[at]) {
            items.push(item);
        }
        at += 1;
    }
    assert(comments@.take(at as int) == comments@);
    items
}

/// Classifies the annotations of one file at the instant `now`.
pub fn classify_all(items: &[TodoItem], now: &Moment) -> (warnings: Vec<TodoWarning>)
    ensures
        views(warnings@) == classifications(views(items@), *now),
        forall|i: int| 0 <= i < warnings@.len() ==> (#[trigger] warnings@[i])@.wf(),
{
    let mut warnings: Vec<TodoWarning> = Vec::new();
    let mut at: usize = 0;
    while at < items.len()
        invariant
            at <= items@.len(),
            warnings@.len() == at,
            forall|i: int|
                0 <= i < at ==> (#[trigger] warnings@[i])@ == classification(items@[i]@, *now),
            forall|i: int| 0 <= i < at ==> (#[trigger] warnings@[i])@.wf(),
        decreases items@.len() - at,
    {
        warnings.push(classify(&items[at], now));
        at += 1;
    }
    warnings
}

/// The warnings about the given line, in their order.
pub open spec fn on_line(warnings: Seq<TodoWarningView>, line: usize) -> Seq<TodoWarningView> {
    warnings.filter(|w: TodoWarningView| w.line_number() == line)
}

/// Whether the line numbers never decrease along the sequence.
pub open spec fn sorted_by_line(warnings: Seq<TodoWarningView>) -> bool {
    forall|i: int, j: int|
        0 <= i <= j < warnings.len() ==> warnings[i].line_number() <= warnings[j].line_number()
}

/// Whether `sorted` is `warnings` ordered by line: its line numbers never
/// decrease, and for every line it holds the warnings about that line exactly
/// as `warnings` does, in the same order.
pub open spec fn is_aggregate_of(sorted: Seq<TodoWarningView>, warnings: Seq<TodoWarningView>) -> bool {
    &&& sorted_by_line(sorted)
    &&& forall|line: usize| #[trigger] on_line(sorted, line) == on_line(warnings, line)
}

/// Where no warning is about a line, none is selected for it.
pub proof fn lemma_on_line_none(warnings: Seq<TodoWarningView>, line: usize)
    requires
        forall|i: int| 0 <= i < warnings.len() ==> (#[trigger] warnings[i]).line_number() != line,
    ensures
        on_line(warnings, line) == Seq::<TodoWarningView>::empty(),
    decreases warnings.len(),
{
    reveal(Seq::filter);
    if warnings.len() > 0 {
        lemma_on_line_none(warnings.drop_last(), line);
    }
}

proof fn lemma_on_line_insert(
    warnings: Seq<TodoWarningView>,
    at: int,
    w: TodoWarningView,
    line: usize,
)
    requires
        0 <= at <= warnings.len(),
        forall|i: int| 0 <= i < at ==> (#[trigger] warnings[i]).line_number() < w.line_number(),
    ensures
        on_line(warnings.insert(at, w), line) == on_line(seq![w], line) + on_line(warnings, line),
{
    let pred = |w: TodoWarningView| w.line_number() == line;
    let head = warnings.subrange(0, at);
    let tail = warnings.subrange(at, warnings.len() as int);
    assert(warnings == head + tail);
    assert(head.push(w) == head + seq![w]);
    Seq::filter_distributes_over_add(head, tail, pred);
    Seq::filter_distributes_over_add(head, seq![w], pred);
    Seq::filter_distributes_over_add(head + seq![w], tail, pred);
    if w.line_number() == line {
        lemma_on_line_none(head, line);
    } else {
        lemma_on_line_none(seq![w], line);
    }
}

/// Orders the warnings of one file by line.
///
/// The line numbers of the result never decrease, and for every line the
/// result holds the warnings about that line exactly as the input does, in
/// the same order: the sort is stable and loses or invents nothing.
pub fn aggregate(warnings: Vec<TodoWarning>) -> (sorted: Vec<TodoWarning>)
    ensures
        is_aggregate_of(views(sorted@), views(warnings@)),
        sorted@.len() == warnings@.len(),
        forall|i: int| 0 <= i < sorted@.len() ==> warnings@.contains(#[trigger] sorted@[i]),
{
    let mut rest = warnings;
    let mut sorted: Vec<TodoWarning> = Vec::new();
    proof {
        assert forall|line: usize| #[trigger]
            on_line(views(rest@), line) + on_line(views(sorted@), line) == on_line(
                views(warnings@),
                line,
            ) by {
            lemma_on_line_none(views(sorted@), line);
        }
    }
    while rest.len() > 0
        invariant
            sorted_by_line(views(sorted@)),
            forall|line: usize| #[trigger]
                on_line(views(rest@), line) + on_line(views(sorted@), line) == on_line(
                    views(warnings@),
                    line,
                ),
            rest@.len() + sorted@.len() == warnings@.len(),
            forall|i: int| 0 <= i < rest@.len() ==> warnings@.contains(#[trigger] rest@[i]),
            forall|i: int| 0 <= i < sorted@.len() ==> warnings@.contains(#[trigger] sorted@[i]),
        decreases rest@.len(),
    {
        let ghost rest_before = views(rest@);
        let ghost sorted_before = views(sorted@);
        let ghost moved_before = sorted@;
        assert(warnings@.contains(rest@[rest@.len() - 1]));
        let w = rest.pop().unwrap();
        let line = w.line_number();
        let mut at: usize = 0;
        while at < sorted.len() && sorted[at].line_number() < line
            invariant
                at <= sorted@.len(),
                line == w@.line_number(),
                forall|i: int| 0 <= i < at ==> (#[trigger] sorted@[i])@.line_number() < line,
            decreases sorted@.len() - at,
        {
            at += 1;
        }
        proof {
            assert forall|i: int| 0 <= i < at implies (#[trigger] sorted_before[i]).line_number()
                < line by {
                assert(sorted_before[i] == sorted@[i]@);
            }
            if at < sorted@.len() {
                assert(sorted_before[at as int] == sorted@[at as int]@);
            }
        }
        sorted.insert(at, w);
        proof {
            moved_before.insert_ensures(at as int, w);
            assert forall|i: int| 0 <= i < sorted@.len() implies warnings@.contains(
                #[trigger] sorted@[i],
            ) by {
                if i < at {
                    assert(sorted@[i] == moved_before[i]);
                } else if i > at {
                    assert(sorted@[i] == moved_before[i - 1]);
                }
            }
            let inserted = sorted_before.insert(at as int, w@);
            sorted_before.insert_ensures(at as int, w@);
            assert(views(sorted@) =~= inserted);
            assert forall|i: int, j: int| 0 <= i <= j < inserted.len() implies inserted[i].line_number()
                <= inserted[j].line_number() by {
                if i < at {
                    assert(inserted[i] == sorted_before[i]);
                } else if i > at {
                    assert(inserted[i] == sorted_before[i - 1]);
                }
                if j < at {
                    assert(inserted[j] == sorted_before[j]);
                } else if j > at {
                    assert(inserted[j] == sorted_before[j - 1]);
                }
            }
            assert(rest_before =~= views(rest@) + seq![w@]);
            assert forall|l: usize| #[trigger]
                on_line(views(rest@), l) + on_line(views(sorted@), l) == on_line(
                    views(warnings@),
                    l,
                ) by {
                Seq::filter_distributes_over_add(
                    views(rest@),
                    seq![w@],
                    |w: TodoWarningView| w.line_number() == l,
                );
                lemma_on_line_insert(sorted_before, at as int, w@, l);
                assert(on_line(rest_before, l) + on_line(sorted_before, l) == on_line(
                    views(warnings@),
                    l,
                ));
                assert(on_line(views(rest@), l) + (on_line(seq![w@], l) + on_line(
                    sorted_before,
                    l,
                )) == (on_line(views(rest@), l) + on_line(seq![w@], l)) + on_line(
                    sorted_before,
                    l,
                ));
            }
        }
    }
    proof {
        assert forall|line: usize| #[trigger]
            on_line(views(sorted@), line) == on_line(views(warnings@), line) by {
            lemma_on_line_none(views(rest@), line);
            assert(on_line(views(rest@), line) + on_line(views(sorted@), line) == on_line(
                views(sorted@),
                line,
            ));
        }
    }
    sorted
}

/// `s` without the line feed at its end, if it ends in one.
pub open spec fn without_final_newline(s: Seq<char>) -> Seq<char> {
    if s.len() > 0 && s.last() == '\n' {
        s.drop_last()
    } else {
        s
    }
}

/// The comment that a captured node is: the text between its byte offsets,
/// less a final line feed, and its line, counted from 1. There is none where
/// the offsets do not cut text out of the source, or the line has no number.
pub open spec fn comment_at(source: Seq<u8>, span: NodeSpan) -> Option<(Seq<char>, usize)> {
    let bytes = source.subrange(span.start_byte as int, span.end_byte as int);
    if span.start_byte <= span.end_byte <= source.len() && valid_utf8(bytes) && span.row
        < usize::MAX {
        Some((without_final_newline(decode_utf8(bytes)), (span.row + 1) as usize))
    } else {
        None
    }
}

/// The comment of a match: that of its first capture, if it has a capture.
pub open spec fn comment_of_match(source: Seq<u8>, captures: Seq<NodeSpan>) -> Option<
    (Seq<char>, usize),
> {
    if captures.len() > 0 {
        comment_at(source, captures[0])
    } else {
        None
    }
}

/// Whether the first capture of every match that has one is a comment of the
/// source.
pub open spec fn is_readable(source: Seq<u8>, matches: Seq<Seq<NodeSpan>>) -> bool {
    forall|i: int|
        0 <= i < matches.len() && (#[trigger] matches[i]).len() > 0 ==> comment_at(
            source,
            matches[i][0],
        ) is Some
}

/// The comments of the matches, in their order; a match without a capture
/// gives none.
pub open spec fn comments_of(source: Seq<u8>, matches: Seq<Seq<NodeSpan>>) -> Seq<
    (Seq<char>, usize),
> {
    matches.filter_map(|captures: Seq<NodeSpan>| comment_of_match(source, captures))
}

/// Reads the comment that a captured node is.
pub fn read_comment(source: &[u8], span: &NodeSpan) -> (r: Option<RawComment>)
    ensures
        match r {
            Some(comment) => comment_at(source@, *span) == Some(comment@),
            None => comment_at(source@, *span) is None,
        },
{
    if span.start_byte > span.end_byte || span.end_byte > source.len() {
        return None;
    }
    let line_number = match span.row.checked_add(1) {
        Some(n) => n,
        None => {
            return None;
        },
    };
    let text = match utf8_text(slice_subrange(source, span.start_byte, span.end_byte)) {
        Some(text) => text,
        None => {
            return None;
        },
    };
    proof {
        encode_utf8_decode_utf8(text@);
    }
    let chars = chars_of(text);
    let end = if chars.len() > 0 && chars[chars.len() - 1] == '\n' {
        chars.len() - 1
    } else {
        chars.len()
    };
    let kept = slice_subrange(chars.as_slice(), 0, end);
    Some(RawComment { text: string_from_chars(kept), line_number })
}

/// Reads the comments that the matches of the comment queries captured.
///
/// Succeeds exactly where every first capture is a comment of the source, and
/// then gives the comments in the order of the matches.
pub fn read_comments(source: &[u8], matches: &Vec<Vec<NodeSpan>>) -> (r: Result<
    Vec<RawComment>,
    AnalysisError,
>)
    ensures
        match r {
            Ok(comments) => is_readable(source@, match_spans(matches@)) && views(comments@)
                == comments_of(source@, match_spans(matches@)),
            Err(e) => e is ParseFailure && !is_readable(
                source@,
                match_spans(matches@),
            ),
        },
{
    let ghost all = match_spans(matches@);
    let mut comments: Vec<RawComment> = Vec::new();
    let mut at: usize = 0;
    while at < matches.len()
        invariant
            at <= matches@.len(),
            all == match_spans(matches@),
            is_readable(source@, all.take(at as int)),
            views(comments@) == comments_of(source@, all.take(at as int)),
        decreases matches@.len() - at,
    {
        let ghost before = all.take(at as int);
        let ghost after = all.take(at + 1);
        assert(after.drop_last() == before);
        if matches[at].len() > 0 {
            match read_comment(source, &matches[at][0]) {
                Some(comment) => {
                    comments.push(comment);
                },
                None => {
                    assert(all[at as int] == matches@[at as int]@);
                    assert(comment_at(source@, all[at as int][0]) is None);
                    return Err(AnalysisError::ParseFailure);
                },
            }
        }
        assert forall|i: int| 0 <= i < after.len() && (#[trigger] after[i]).len() > 0 implies comment_at(
            source@,
            after[i][0],
        ) is Some by {
            if i < at {
                assert(before[i] == after[i]);
            }
        }
        at += 1;
    }
    assert(all.take(at as int) == all);
    Ok(comments)
}

/// Finds the annotations among the captured nodes of one file.
///
/// This is all of the analysis that follows the syntax tree: it fails with
/// `ParseFailure` exactly where a first capture is no comment of the source,
/// and else gives the annotations of the comments, in the order of the
/// matches.
pub fn analyze_matches(source: &[u8], matches: &Vec<Vec<NodeSpan>>) -> (r: Result<
    Vec<TodoItem>,
    AnalysisError,
>)
    ensures
        match r {
            Ok(items) => {
                &&& is_readable(source@, match_spans(matches@))
                &&& views(items@) == annotations(comments_of(source@, match_spans(matches@)))
                &&& forall|i: int| 0 <= i < items@.len() ==> (#[trigger] items@[i])@.wf()
            },
            Err(e) => e is ParseFailure && !is_readable(
                source@,
                match_spans(matches@),
            ),
        },
{
    match read_comments(source, matches) {
        Ok(comments) => Ok(annotate_all(comments.as_slice())),
        Err(e) => Err(e),
    }
}

/// The matches of all the queries over a tree, those of an earlier query
/// first.
pub open spec fn all_matches(queries: Seq<Query>, tree: Tree, source: Seq<u8>) -> Seq<
    Seq<NodeSpan>,
>
    decreases queries.len(),
{
    if queries.len() == 0 {
        Seq::empty()
    } else {
        all_matches(queries.drop_last(), tree, source) + query_matches(
            queries.last(),
            tree,
            source,
        )
    }
}

/// What running the comment queries of `language` over the content gives.
///
/// It fails with `UnsupportedLanguage` where the registry does not hold the
/// language; else with `Io` where the content is not UTF-8 text; else with
/// `RegistryBuild` where the grammar of the language does not fit the parser;
/// else with `ParseFailure` where the grammar gives no tree for the content.
/// Else it is the matches of the compiled queries of the language over the
/// tree of the content, in the order of the queries.
pub open spec fn matches_in(
    registry: Map<Seq<char>, LanguageConfig>,
    language: Seq<char>,
    content: Seq<u8>,
) -> Result<Seq<Seq<NodeSpan>>, AnalysisErrorView> {
    if !registry.contains_key(language) {
        Err(AnalysisErrorView::UnsupportedLanguage { language })
    } else if !valid_utf8(content) {
        Err(AnalysisErrorView::Io)
    } else if !grammar_fits(registry[language].language) {
        Err(AnalysisErrorView::RegistryBuild)
    } else {
        match parsed_tree(Some(registry[language].language), content) {
            None => Err(AnalysisErrorView::ParseFailure),
            Some(tree) => Ok(all_matches(registry[language].compiled_queries@, tree, content)),
        }
    }
}

/// The comments of the content: those that the matches of `matches_in` give,
/// in their order. A first capture that is no text of the content is a
/// `ParseFailure`.
pub open spec fn comments_in(
    registry: Map<Seq<char>, LanguageConfig>,
    language: Seq<char>,
    content: Seq<u8>,
) -> Result<Seq<(Seq<char>, usize)>, AnalysisErrorView> {
    match matches_in(registry, language, content) {
        Err(e) => Err(e),
        Ok(matches) => if is_readable(content, matches) {
            Ok(comments_of(content, matches))
        } else {
            Err(AnalysisErrorView::ParseFailure)
        },
    }
}

/// The annotations of the content: those of the comments of `comments_in`,
/// in their order.
pub open spec fn annotations_in(
    registry: Map<Seq<char>, LanguageConfig>,
    language: Seq<char>,
    content: Seq<u8>,
) -> Result<Seq<TodoItemView>, AnalysisErrorView> {
    match comments_in(registry, language, content) {
        Err(e) => Err(e),
        Ok(comments) => Ok(annotations(comments)),
    }
}

/// Finds and classifies the annotations of source files.
pub struct TodoAnalyzer<'config> {
    parser: Parser,
    language_configs: &'config StringHashMap<LanguageConfig>,
}

impl<'config> TodoAnalyzer<'config> {
    /// The registry that the analyzer looks languages up in.
    pub closed spec fn registry(&self) -> Map<Seq<char>, LanguageConfig> {
        self.language_configs@
    }

    /// The grammar that the parser of the analyzer holds.
    pub closed spec fn grammar(&self) -> Option<Language> {
        parser_grammar(self.parser)
    }

    /// The grammar that the parser holds after an analysis of `content` in
    /// `language`: that of the language where the analysis came to select it
    /// and it fits the parser, else the grammar held before.
    pub open spec fn grammar_after(&self, language: Seq<char>, content: Seq<u8>) -> Option<
        Language,
    > {
        if self.registry().contains_key(language) && valid_utf8(content) && grammar_fits(
            self.registry()[language].language,
        ) {
            Some(self.registry()[language].language)
        } else {
            self.grammar()
        }
    }

    /// An analyzer over the given registry, with a parser of its own that
    /// holds no grammar yet. Making one never fails.
    pub fn new(language_configs: &'config StringHashMap<LanguageConfig>) -> (r: Result<
        Self,
        AnalysisError,
    >)
        ensures
            r matches Ok(analyzer) && analyzer.registry() == language_configs@
                && analyzer.grammar() is None,
    {
        Ok(TodoAnalyzer { parser: Parser::new(), language_configs })
    }

    /// Selects the grammar of `language` for parsing.
    ///
    /// Succeeds exactly where the registry holds the language and its grammar
    /// fits the parser, which then holds that grammar. It fails with
    /// `UnsupportedLanguage`, which names the language, where the registry
    /// does not hold it, and with `RegistryBuild` where the grammar does not
    /// fit; the parser then keeps the grammar it held.
    pub fn set_language(&mut self, language: &str) -> (r: Result<(), AnalysisError>)
        ensures
            final(self).registry() == old(self).registry(),
            r is Ok <==> old(self).registry().contains_key(language@) && grammar_fits(
                old(self).registry()[language@].language,
            ),
            match r {
                Ok(()) => final(self).grammar() == Some(old(self).registry()[language@].language),
                Err(e) => final(self).grammar() == old(self).grammar() && e@ == (if old(
                    self,
                ).registry().contains_key(language@) {
                    AnalysisErrorView::RegistryBuild
                } else {
                    AnalysisErrorView::UnsupportedLanguage { language: language@ }
                }),
            },
    {
        let configs = self.language_configs;
        match configs.get(language) {
            Some(config) => {
                if self.parser.set_language(&config.language).is_err() {
                    Err(AnalysisError::RegistryBuild)
                } else {
                    Ok(())
                }
            },
            None => Err(AnalysisError::unsupported(language)),
        }
    }

    /// Parses the content with the grammar of `language`, from scratch, and
    /// runs each comment query of the language over the tree, in their order.
    ///
    /// The result is what `matches_in` says: the matches of all queries,
    /// those of an earlier query first, or the error that stands in the way.
    /// The analyzer selects the grammar itself and keeps it selected.
    pub fn find_matches(&mut self, content: &[u8], language: &str) -> (r: Result<
        Vec<Vec<NodeSpan>>,
        AnalysisError,
    >)
        ensures
            final(self).registry() == old(self).registry(),
            final(self).grammar() == old(self).grammar_after(language@, content@),
            match matches_in(old(self).registry(), language@, content@) {
                Ok(matches) => r matches Ok(found) && match_spans(found@) == matches,
                Err(e) => r matches Err(error) && error@ == e,
            },
    {
        let configs = self.language_configs;
        let config = match configs.get(language) {
            Some(config) => config,
            None => {
                return Err(AnalysisError::unsupported(language));
            },
        };
        if utf8_text(content).is_none() {
            return Err(AnalysisError::Io);
        }
        if self.parser.set_language(&config.language).is_err() {
            return Err(AnalysisError::RegistryBuild);
        }
        let tree = match parse_source(&mut self.parser, content) {
            Some(tree) => tree,
            None => {
                return Err(AnalysisError::ParseFailure);
            },
        };
        let queries = &config.compiled_queries;
        let mut matches: Vec<Vec<NodeSpan>> = Vec::new();
        let mut at: usize = 0;
        assert(queries@.take(0) == Seq::<Query>::empty());
        while at < queries.len()
            invariant
                at <= queries@.len(),
                parsed_tree(Some(config.language), content@) == Some(tree),
                match_spans(matches@) == all_matches(queries@.take(at as int), tree, content@),
            decreases queries@.len() - at,
        {
            let ghost before = match_spans(matches@);
            let mut found = run_query(&queries[at], &tree, content);
            let ghost added = match_spans(found@);
            matches.append(&mut found);
            proof {
                assert(queries@.take(at + 1).drop_last() == queries@.take(at as int));
                assert(queries@.take(at + 1).last() == queries@[at as int]);
                assert(match_spans(matches@) =~= before + added);
            }
            at += 1;
        }
        assert(queries@.take(at as int) == queries@);
        Ok(matches)
    }

    /// Extracts the comments of one file.
    ///
    /// The result is what `comments_in` says: of the matches that
    /// `find_matches` finds, the first capture of each, in the order of the
    /// matches, as `read_comments` reads them.
    pub fn extract(&mut self, content: &[u8], language: &str) -> (r: Result<
        Vec<RawComment>,
        AnalysisError,
    >)
        ensures
            final(self).registry() == old(self).registry(),
            final(self).grammar() == old(self).grammar_after(language@, content@),
            match comments_in(old(self).registry(), language@, content@) {
                Ok(comments) => r matches Ok(found) && views(found@) == comments,
                Err(e) => r matches Err(error) && error@ == e,
            },
    {
        let matches = match self.find_matches(content, language) {
            Ok(matches) => matches,
            Err(e) => {
                return Err(e);
            },
        };
        read_comments(content, &matches)
    }

    /// Finds the annotations in the content of one file.
    ///
    /// The result is what `annotations_in` says: the annotations of the
    /// comments that `extract` reads, in their order, as `analyze_matches`
    /// gives them.
    pub fn analyze_file(&mut self, content: &[u8], language: &str) -> (r: Result<
        Vec<TodoItem>,
        AnalysisError,
    >)
        ensures
            final(self).registry() == old(self).registry(),
            final(self).grammar() == old(self).grammar_after(language@, content@),
            match annotations_in(old(self).registry(), language@, content@) {
                Ok(items) => r matches Ok(found) && views(found@) == items,
                Err(e) => r matches Err(error) && error@ == e,
            },
            r matches Ok(items) ==> forall|i: int|
                0 <= i < items@.len() ==> (#[trigger] items@[i])@.wf(),
    {
        let matches = match self.find_matches(content, language) {
            Ok(matches) => matches,
            Err(e) => {
                return Err(e);
            },
        };
        analyze_matches(content, &matches)
    }

    /// Classifies the annotations of one file at the current local time.
    ///
    /// The warnings are those of `classify_all` at the instant that the clock
    /// gave, which is some time of some day.
    pub fn check_todos(&self, todos: &[TodoItem]) -> (warnings: Vec<TodoWarning>)
        ensures
            exists|now: Moment|
                now.wf() && #[trigger] classifications(views(todos@), now) == views(warnings@),
            forall|i: int| 0 <= i < warnings@.len() ==> (#[trigger] warnings@[i])@.wf(),
    {
        let now = Moment::now();
        let warnings = classify_all(todos, &now);
        warnings
    }
}

} // verus!
