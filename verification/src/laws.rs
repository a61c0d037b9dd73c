//! Laws of the analysis: what holds of its functions together, for every
//! input.

use crate::annotation::{
    contains_marker, date_at, date_shape_at, decode, digit_value, is_digit, is_word,
    lemma_shape_bounds, lemma_shape_has_marker, marker_len, todo_at,
};
use crate::date::{days_before_month, two_digits, Date, Moment};
use crate::error::AnalysisErrorView;
use crate::languages::LanguageConfig;
use crate::text::{byte_len, digit_char, lemma_byte_len_add, lemma_byte_len_one};
use crate::todo_analyzer::{
    annotation, annotations, annotations_in, classification, classifications, is_aggregate_of,
    is_readable, lemma_on_line_none, matches_in, on_line, sorted_by_line, TodoItemView,
    TodoWarningView,
};
use vstd::prelude::*;
use vstd::utf8::{char_is_scalar, encode_utf8, valid_utf8};

verus! {

/// A comment is ignored exactly where it holds no marker.
pub proof fn lemma_annotation_needs_marker(text: Seq<char>, line_number: usize)
    ensures
        annotation(text, line_number) is None <==> !contains_marker(text),
{
}

/// `@todo` is a marker, as `TODO` stands in it.
pub proof fn lemma_at_todo_is_marker(text: Seq<char>, at: int)
    requires
        0 <= at < text.len(),
        text[at] == '@',
        todo_at(text, at + 1),
    ensures
        contains_marker(text),
{
    assert(marker_len(text, at + 1) > 0);
}

/// A comment that decodes holds a marker.
pub proof fn lemma_decoded_comment_holds_marker(text: Seq<char>)
    requires
        decode(text) is Some,
    ensures
        contains_marker(text),
{
    lemma_shape_has_marker(text, 0);
}

/// What a comment decodes to: a day of the calendar, and an owner that is a
/// run of word characters and not empty, so that no `@` stands in it.
pub proof fn lemma_decoded_parts(text: Seq<char>)
    requires
        decode(text) is Some,
        text.len() <= usize::MAX,
    ensures
        ({
            let (date, owner) = decode(text).unwrap();
            &&& date.wf()
            &&& owner.len() > 0
            &&& forall|k: int| 0 <= k < owner.len() ==> is_word(#[trigger] owner[k])
            &&& !owner.contains('@')
        }),
{
    lemma_shape_bounds(text, 0);
}

/// Comments without a marker give no annotation and no warning.
pub proof fn lemma_unmarked_comments_are_ignored(comments: Seq<(Seq<char>, usize)>, now: Moment)
    requires
        forall|i: int| 0 <= i < comments.len() ==> !contains_marker((#[trigger] comments[i]).0),
    ensures
        annotations(comments).len() == 0,
        classifications(annotations(comments), now).len() == 0,
    decreases comments.len(),
{
    if comments.len() > 0 {
        lemma_unmarked_comments_are_ignored(comments.drop_last(), now);
    }
}

/// Every annotation gives exactly one warning, about its own line.
pub proof fn lemma_one_warning_for_each_annotation(items: Seq<TodoItemView>, now: Moment)
    ensures
        classifications(items, now).len() == items.len(),
        forall|i: int|
            0 <= i < items.len() ==> (#[trigger] classifications(items, now)[i]).line_number()
                == items[i].line_number,
{
}

/// The day numbers of well-formed dates lie between those of 0000-01-01 and
/// 9999-12-31.
pub proof fn lemma_day_number_range(date: Date)
    requires
        date.wf(),
    ensures
        -365 <= date.day_number() <= 3_652_059,
{
    reveal_with_fuel(days_before_month, 13);
}

/// The due date decides between overdue and due soon.
///
/// A well-formed item is overdue at every instant after the midnight that
/// starts its due date. At that midnight and before, it is due soon, in as
/// many whole days as lie between the day of the instant and the due date.
pub proof fn lemma_due_date_decides(item: TodoItemView, now: Moment)
    requires
        item.wf(),
        item.is_valid_format,
    ensures
        now.is_past(item.due_date->0) ==> classification(item, now) == (TodoWarningView::Overdue {
            line_number: item.line_number,
            due_date: item.due_date->0,
            owner: item.owner,
            comment: item.text,
        }),
        !now.is_past(item.due_date->0) ==> classification(item, now) == (TodoWarningView::DueSoon {
            line_number: item.line_number,
            due_date: item.due_date->0,
            owner: item.owner,
            comment: item.text,
            days_until_due: (item.due_date->0.day_number() - now.day) as i64,
        }) && 0 <= item.due_date->0.day_number() - now.day <= i64::MAX,
{
    lemma_day_number_range(item.due_date->0);
}

/// A malformed item is a format warning at every instant.
pub proof fn lemma_malformed_is_format_warning(item: TodoItemView, now: Moment)
    requires
        !item.is_valid_format,
    ensures
        classification(item, now) == (TodoWarningView::InvalidFormat {
            line_number: item.line_number,
            comment: item.text,
        }),
{
}

proof fn lemma_on_line_last(warnings: Seq<TodoWarningView>, line: usize)
    requires
        warnings.len() > 0,
    ensures
        on_line(warnings, line) == if warnings.last().line_number() == line {
            on_line(warnings.drop_last(), line).push(warnings.last())
        } else {
            on_line(warnings.drop_last(), line)
        },
{
    reveal(Seq::filter);
}

proof fn lemma_none_beyond_last(warnings: Seq<TodoWarningView>, line: usize)
    requires
        sorted_by_line(warnings),
        warnings.len() == 0 || warnings.last().line_number() < line,
    ensures
        on_line(warnings, line).len() == 0,
{
    lemma_on_line_none(warnings, line);
}

proof fn lemma_same_lines_same_order(a: Seq<TodoWarningView>, b: Seq<TodoWarningView>)
    requires
        sorted_by_line(a),
        sorted_by_line(b),
        forall|line: usize| #[trigger] on_line(a, line) == on_line(b, line),
    ensures
        a == b,
    decreases a.len() + b.len(),
{
    if a.len() == 0 && b.len() == 0 {
        // Two empty sequences.
    } else if a.len() == 0 || (b.len() > 0 && a.last().line_number() < b.last().line_number()) {
        let line = b.last().line_number();
        lemma_on_line_last(b, line);
        lemma_none_beyond_last(a, line);
    } else if b.len() == 0 || b.last().line_number() < a.last().line_number() {
        let line = a.last().line_number();
        lemma_on_line_last(a, line);
        lemma_none_beyond_last(b, line);
    } else {
        let line = a.last().line_number();
        let shorter_a = a.drop_last();
        let shorter_b = b.drop_last();
        lemma_on_line_last(a, line);
        lemma_on_line_last(b, line);
        let pushed_a = on_line(shorter_a, line).push(a.last());
        let pushed_b = on_line(shorter_b, line).push(b.last());
        assert(pushed_a == pushed_b);
        assert(a.last() == b.last()) by {
            assert(pushed_a.last() == a.last());
        }
        assert forall|other: usize| #[trigger]
            on_line(shorter_a, other) == on_line(shorter_b, other) by {
            lemma_on_line_last(a, other);
            lemma_on_line_last(b, other);
            if other == line {
                assert(pushed_a.drop_last() =~= on_line(shorter_a, line));
            }
        }
        lemma_same_lines_same_order(shorter_a, shorter_b);
        assert(a =~= shorter_a.push(a.last()));
    }
}

/// The order of a report is determined: two sequences that both are the
/// aggregate of the same warnings are the same sequence.
///
/// So analyzing the same comments at the same instant twice gives the same
/// warnings in the same order, since annotating and classifying are functions
/// of the comments and the instant.
pub proof fn lemma_aggregate_is_determined(
    first: Seq<TodoWarningView>,
    second: Seq<TodoWarningView>,
    warnings: Seq<TodoWarningView>,
)
    requires
        is_aggregate_of(first, warnings),
        is_aggregate_of(second, warnings),
    ensures
        first == second,
{
    lemma_same_lines_same_order(first, second);
}

/// Analyzing the same content twice gives the same report.
///
/// What an analysis finds in a file is a function of the registry, the
/// language and the content: the grammar is selected anew each time, so that
/// what the analyzer did before does not count. The warnings of the
/// annotations at one instant have one order by line only. So two reports of
/// one file at one instant are the same sequence.
pub proof fn lemma_same_content_same_report(
    registry: Map<Seq<char>, LanguageConfig>,
    language: Seq<char>,
    content: Seq<u8>,
    now: Moment,
    first: Seq<TodoWarningView>,
    second: Seq<TodoWarningView>,
)
    requires
        annotations_in(registry, language, content) is Ok,
        is_aggregate_of(
            first,
            classifications(annotations_in(registry, language, content)->Ok_0, now),
        ),
        is_aggregate_of(
            second,
            classifications(annotations_in(registry, language, content)->Ok_0, now),
        ),
    ensures
        first == second,
{
    lemma_aggregate_is_determined(
        first,
        second,
        classifications(annotations_in(registry, language, content)->Ok_0, now),
    );
}

/// An analysis fails for one reason only, and the reasons come in an order:
/// a language that the registry does not hold, content that is no text, a
/// grammar that does not fit the parser, a grammar that gives no tree, a
/// capture that is no text of the content.
pub proof fn lemma_reasons_to_fail(
    registry: Map<Seq<char>, LanguageConfig>,
    language: Seq<char>,
    content: Seq<u8>,
)
    ensures
        !registry.contains_key(language) <==> annotations_in(registry, language, content) == Err::<
            Seq<TodoItemView>,
            AnalysisErrorView,
        >(AnalysisErrorView::UnsupportedLanguage { language }),
        registry.contains_key(language) && !valid_utf8(content) <==> annotations_in(
            registry,
            language,
            content,
        ) == Err::<Seq<TodoItemView>, AnalysisErrorView>(AnalysisErrorView::Io),
        annotations_in(registry, language, content) is Ok <==> matches_in(
            registry,
            language,
            content,
        ) is Ok && is_readable(content, matches_in(registry, language, content)->Ok_0),
{
}

/// Within one file, the line numbers of an aggregate never decrease.
pub proof fn lemma_aggregate_is_sorted(sorted: Seq<TodoWarningView>, warnings: Seq<TodoWarningView>)
    requires
        is_aggregate_of(sorted, warnings),
    ensures
        forall|i: int, j: int|
            0 <= i <= j < sorted.len() ==> sorted[i].line_number() <= sorted[j].line_number(),
{
}

/// The number of bytes that a text is counted to take is the length of its
/// UTF-8 encoding.
pub proof fn lemma_byte_len_is_encoded_len(text: Seq<char>)
    ensures
        byte_len(text) == encode_utf8(text).len(),
    decreases text.len(),
{
    if text.len() > 0 {
        let first = text[0];
        let rest = text.drop_first();
        lemma_byte_len_is_encoded_len(rest);
        char_is_scalar(first);
        assert(text == seq![first] + rest);
        lemma_byte_len_add(seq![first], rest);
        lemma_byte_len_one(first);
    }
}

/// The digit that is written is the digit that is read.
proof fn lemma_digit_reads_back(digit: int)
    requires
        0 <= digit <= 9,
    ensures
        is_digit(digit_char(digit)),
        digit_value(digit_char(digit)) == digit,
        digit_char(digit) != '-',
{
}

/// Two digits that are written read back as the number.
proof fn lemma_two_digits_read_back(n: int)
    requires
        0 <= n < 100,
    ensures
        two_digits(n).len() == 2,
        is_digit(two_digits(n)[0]),
        is_digit(two_digits(n)[1]),
        10 * digit_value(two_digits(n)[0]) + digit_value(two_digits(n)[1]) == n,
{
    lemma_digit_reads_back(n / 10);
    lemma_digit_reads_back(n % 10);
}

/// A date that is written as `YYYY-MM-DD` reads back as the same date.
pub proof fn lemma_rendered_date_reads_back(date: Date)
    requires
        date.wf(),
    ensures
        date_shape_at(date.text(), 0),
        date_at(date.text(), 0) == Some(date),
{
    lemma_two_digits_read_back(date.year as int / 100);
    lemma_two_digits_read_back(date.year as int % 100);
    lemma_two_digits_read_back(date.month as int);
    lemma_two_digits_read_back(date.day as int);
}

} // verus!
