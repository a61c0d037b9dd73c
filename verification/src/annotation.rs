//! The grammar of an annotation inside a comment.
//!
//! A comment carries a marker when it holds `TODO` or `FIXME` in any mix of
//! upper and lower case (`@todo` therefore counts too). A marker comment is
//! well formed when somewhere in it stands
//!
//! ```text
//! (TODO|FIXME) ":" space* YYYY-MM-DD space+ "@" word+
//! ```
//!
//! and the date of the leftmost such place is a day of the calendar. Whatever
//! follows the owner is free text and is not looked at.

use crate::date::{is_calendar_date, Date};
use crate::text::{lemma_whitespace_run_bound, skip_whitespace, whitespace_run};
use vstd::prelude::*;

verus! {

/// Whether `c` is the lower-case ASCII letter `letter` or its upper case.
pub open spec fn same_letter(c: char, letter: char) -> bool {
    c == letter || c as u32 + 32 == letter as u32
}

/// Whether `TODO` stands at `at`, in any case.
pub open spec fn todo_at(s: Seq<char>, at: int) -> bool {
    &&& 0 <= at
    &&& at + 4 <= s.len()
    &&& same_letter(s[at], 't')
    &&& same_letter(s[at + 1], 'o')
    &&& same_letter(s[at + 2], 'd')
    &&& same_letter(s[at + 3], 'o')
}

/// Whether `FIXME` stands at `at`, in any case.
pub open spec fn fixme_at(s: Seq<char>, at: int) -> bool {
    &&& 0 <= at
    &&& at + 5 <= s.len()
    &&& same_letter(s[at], 'f')
    &&& same_letter(s[at + 1], 'i')
    &&& same_letter(s[at + 2], 'x')
    &&& same_letter(s[at + 3], 'm')
    &&& same_letter(s[at + 4], 'e')
}

/// The length of the marker that stands at `at`; 0 where none does.
pub open spec fn marker_len(s: Seq<char>, at: int) -> int {
    if todo_at(s, at) {
        4
    } else if fixme_at(s, at) {
        5
    } else {
        0
    }
}

/// Whether the text holds a marker anywhere.
pub open spec fn contains_marker(s: Seq<char>) -> bool {
    exists|at: int| marker_len(s, at) > 0
}

/// An ASCII decimal digit.
pub open spec fn is_digit(c: char) -> bool {
    '0' as u32 <= c as u32 <= '9' as u32
}

/// The value of a decimal digit.
pub open spec fn digit_value(c: char) -> int {
    c as u32 - '0' as u32
}

/// Whether ten characters of the form `dddd-dd-dd` stand at `at`.
pub open spec fn date_shape_at(s: Seq<char>, at: int) -> bool {
    &&& 0 <= at
    &&& at + 10 <= s.len()
    &&& is_digit(s[at])
    &&& is_digit(s[at + 1])
    &&& is_digit(s[at + 2])
    &&& is_digit(s[at + 3])
    &&& s[at + 4] == '-'
    &&& is_digit(s[at + 5])
    &&& is_digit(s[at + 6])
    &&& s[at + 7] == '-'
    &&& is_digit(s[at + 8])
    &&& is_digit(s[at + 9])
}

/// The year, month and day that the digits of a date shape at `at` write.
pub open spec fn date_numbers_at(s: Seq<char>, at: int) -> (int, int, int) {
    (
        1000 * digit_value(s[at]) + 100 * digit_value(s[at + 1]) + 10 * digit_value(s[at + 2])
            + digit_value(s[at + 3]),
        10 * digit_value(s[at + 5]) + digit_value(s[at + 6]),
        10 * digit_value(s[at + 8]) + digit_value(s[at + 9]),
    )
}

/// The calendar date that the date shape at `at` denotes, if it denotes one.
pub open spec fn date_at(s: Seq<char>, at: int) -> Option<Date> {
    let (year, month, day) = date_numbers_at(s, at);
    if date_shape_at(s, at) && is_calendar_date(year, month, day) {
        Some(Date { year: year as i32, month: month as u32, day: day as u32 })
    } else {
        None
    }
}

/// What `regex_syntax::try_is_word_character` answers for a character: whether
/// it is a word character of Unicode (a letter, a mark, a decimal number, a
/// connector or a join control), and `false` where the function has no answer.
pub uninterp spec fn unicode_word(c: char) -> bool;

/// A word character: for ASCII a letter, a digit or the underscore; beyond
/// ASCII what Unicode calls a word character.
pub open spec fn is_word(c: char) -> bool {
    let u = c as u32;
    if u < 0x80 {
        is_digit(c) || 'a' as u32 <= u <= 'z' as u32 || 'A' as u32 <= u <= 'Z' as u32 || c == '_'
    } else {
        unicode_word(c)
    }
}

/// The length of the longest run of word characters that starts at `from`.
pub open spec fn word_run(s: Seq<char>, from: int) -> nat
    decreases s.len() - from,
{
    if 0 <= from < s.len() && is_word(s[from]) {
        1 + word_run(s, from + 1)
    } else {
        0
    }
}

/// Where the parts of a strictly shaped annotation stand in a text.
#[derive(Clone, Copy, Debug, PartialEq, Eq, Structural)]
pub struct Shape {
    /// The index of the first digit of the date.
    pub date: usize,
    /// The index of the first character of the owner, after the `@`.
    pub owner: usize,
    /// The index after the last character of the owner.
    pub owner_end: usize,
}

/// The strict shape that begins with a marker at `at`, if there is one.
///
/// White space is taken greedily, so the date follows the whole run after the
/// colon and the `@` the whole run after the date; the owner is the longest
/// run of word characters after the `@`.
pub open spec fn shape_at(s: Seq<char>, at: int) -> Option<Shape> {
    let colon = at + marker_len(s, at);
    let date = colon + 1 + whitespace_run(s, colon + 1);
    let gap = whitespace_run(s, date + 10);
    let sigil = date + 10 + gap;
    let owner_len = word_run(s, sigil + 1);
    if marker_len(s, at) > 0 && colon < s.len() && s[colon] == ':' && date_shape_at(s, date) && gap
        > 0 && sigil < s.len() && s[sigil] == '@' && owner_len > 0 {
        Some(
            Shape {
                date: date as usize,
                owner: (sigil + 1) as usize,
                owner_end: (sigil + 1 + owner_len) as usize,
            },
        )
    } else {
        None
    }
}

/// The leftmost strict shape that begins at or after `from`.
pub open spec fn first_shape(s: Seq<char>, from: int) -> Option<Shape>
    decreases s.len() - from,
{
    if from < 0 || from >= s.len() {
        None
    } else if shape_at(s, from) is Some {
        shape_at(s, from)
    } else {
        first_shape(s, from + 1)
    }
}

/// The due date and the owner that a comment declares: those of its leftmost
/// strict shape, provided that the date is a day of the calendar.
pub open spec fn decode(s: Seq<char>) -> Option<(Date, Seq<char>)> {
    match first_shape(s, 0) {
        Some(shape) => match date_at(s, shape.date as int) {
            Some(date) => Some((date, s.subrange(shape.owner as int, shape.owner_end as int))),
            None => None,
        },
        None => None,
    }
}

/// A run of word characters is what a scan finds.
pub proof fn lemma_word_run(s: Seq<char>, from: int, to: int)
    requires
        0 <= from <= to <= s.len(),
        forall|k: int| from <= k < to ==> is_word(#[trigger] s[k]),
        to == s.len() || !is_word(s[to]),
    ensures
        word_run(s, from) == to - from,
    decreases to - from,
{
    if from < to {
        lemma_word_run(s, from + 1, to);
    }
}

/// A text in which a strict shape is found holds a marker.
pub proof fn lemma_shape_has_marker(s: Seq<char>, from: int)
    requires
        first_shape(s, from) is Some,
    ensures
        contains_marker(s),
    decreases s.len() - from,
{
    if shape_at(s, from) is Some {
        assert(marker_len(s, from) > 0);
    } else {
        lemma_shape_has_marker(s, from + 1);
    }
}

/// The parts of a shape lie inside the text, in order.
pub proof fn lemma_shape_bounds(s: Seq<char>, from: int)
    requires
        first_shape(s, from) is Some,
        s.len() <= usize::MAX,
    ensures
        ({
            let shape = first_shape(s, from)->0;
            &&& date_shape_at(s, shape.date as int)
            &&& shape.date + 10 < shape.owner
            &&& shape.owner < shape.owner_end <= s.len()
            &&& forall|k: int| shape.owner <= k < shape.owner_end ==> is_word(#[trigger] s[k])
        }),
    decreases s.len() - from,
{
    if shape_at(s, from) is Some {
        let colon = from + marker_len(s, from);
        lemma_whitespace_run_bound(s, colon + 1);
        let date = colon + 1 + whitespace_run(s, colon + 1);
        lemma_whitespace_run_bound(s, date + 10);
        let sigil = date + 10 + whitespace_run(s, date + 10);
        lemma_word_run_bound(s, sigil + 1);
    } else {
        lemma_shape_bounds(s, from + 1);
    }
}

/// A run of word characters never leaves the text, and holds nothing else.
pub proof fn lemma_word_run_bound(s: Seq<char>, from: int)
    requires
        0 <= from <= s.len(),
    ensures
        from + word_run(s, from) <= s.len(),
        forall|k: int| from <= k < from + word_run(s, from) ==> is_word(#[trigger] s[k]),
    decreases s.len() - from,
{
    if from < s.len() && is_word(s[from]) {
        lemma_word_run_bound(s, from + 1);
    }
}

/// `regex_syntax::try_is_word_character`: whether the character is in the
/// class that the `regex` crate matches with `\w`. The function fails only
/// where the crate was built without its Unicode tables; that counts as no.
#[verifier::external_body]
fn regex_word_character(c: char) -> (b: bool)
    ensures
        b == unicode_word(c),
{
    regex_syntax::try_is_word_character(c).unwrap_or(false)
}

/// Whether `c` is a word character.
pub fn is_word_char(c: char) -> (r: bool)
    ensures
        r == is_word(c),
{
    let u = c as u32;
    if u < 0x80 {
        ('0' as u32 <= u && u <= '9' as u32) || ('a' as u32 <= u && u <= 'z' as u32) || ('A' as u32
            <= u && u <= 'Z' as u32) || c == '_'
    } else {
        regex_word_character(c)
    }
}

fn is_letter(c: char, letter: char) -> (r: bool)
    ensures
        r == same_letter(c, letter),
{
    c == letter || c as u32 + 32 == letter as u32
}

fn is_digit_char(c: char) -> (r: bool)
    ensures
        r == is_digit(c),
{
    '0' as u32 <= c as u32 && c as u32 <= '9' as u32
}

/// The length of the marker at `at`, 0 where there is none.
fn marker_len_at(s: &[char], at: usize) -> (n: usize)
    requires
        at < s@.len(),
    ensures
        n == marker_len(s@, at as int),
        at + n <= s@.len() <= usize::MAX,
{
    let room = s.len() - at;
    if room >= 4 && is_letter(s[at], 't') && is_letter(s[at + 1], 'o') && is_letter(s[at + 2], 'd')
        && is_letter(s[at + 3], 'o') {
        4
    } else if room >= 5 && is_letter(s[at], 'f') && is_letter(s[at + 1], 'i') && is_letter(
        s[at + 2],
        'x',
    ) && is_letter(s[at + 3], 'm') && is_letter(s[at + 4], 'e') {
        5
    } else {
        0
    }
}

/// Whether the text holds `TODO` or `FIXME`, in any case.
pub fn has_marker(s: &[char]) -> (r: bool)
    ensures
        r == contains_marker(s@),
{
    let mut at: usize = 0;
    while at < s.len()
        invariant
            at <= s@.len(),
            forall|k: int| 0 <= k < at ==> marker_len(s@, k) == 0,
        decreases s@.len() - at,
    {
        if marker_len_at(s, at) > 0 {
            return true;
        }
        at += 1;
    }
    false
}

fn has_date_shape(s: &[char], at: usize) -> (r: bool)
    requires
        at <= s@.len(),
    ensures
        r == date_shape_at(s@, at as int),
{
    s.len() - at >= 10 && is_digit_char(s[at]) && is_digit_char(s[at + 1]) && is_digit_char(
        s[at + 2],
    ) && is_digit_char(s[at + 3]) && s[at + 4] == '-' && is_digit_char(s[at + 5]) && is_digit_char(
        s[at + 6],
    ) && s[at + 7] == '-' && is_digit_char(s[at + 8]) && is_digit_char(s[at + 9])
}

/// The end of the longest run of word characters that starts at `from`.
fn skip_word(s: &[char], from: usize) -> (to: usize)
    requires
        from <= s@.len(),
    ensures
        to == from + word_run(s@, from as int),
        to <= s@.len(),
{
    let mut to = from;
    while to < s.len() && is_word_char(s[to])
        invariant
            from <= to <= s@.len(),
            forall|k: int| from <= k < to ==> is_word(#[trigger] s@[k]),
        decreases s@.len() - to,
    {
        to += 1;
    }
    proof {
        lemma_word_run(s@, from as int, to as int);
    }
    to
}

/// The strict shape that begins at `at`, if there is one.
fn find_shape_at(s: &[char], at: usize) -> (r: Option<Shape>)
    requires
        at < s@.len(),
    ensures
        r == shape_at(s@, at as int),
        r matches Some(shape) ==> date_shape_at(s@, shape.date as int) && shape.owner
            < shape.owner_end <= s@.len(),
{
    let marker = marker_len_at(s, at);
    if marker == 0 {
        return None;
    }
    let colon = at + marker;
    if colon >= s.len() || s[colon] != ':' {
        return None;
    }
    let date = skip_whitespace(s, colon + 1);
    if !has_date_shape(s, date) {
        return None;
    }
    let sigil = skip_whitespace(s, date + 10);
    if sigil == date + 10 || sigil >= s.len() || s[sigil] != '@' {
        return None;
    }
    let owner_end = skip_word(s, sigil + 1);
    if owner_end == sigil + 1 {
        return None;
    }
    Some(Shape { date, owner: sigil + 1, owner_end })
}

/// The leftmost strict shape in the text.
pub fn find_shape(s: &[char]) -> (r: Option<Shape>)
    ensures
        r == first_shape(s@, 0),
        r matches Some(shape) ==> date_shape_at(s@, shape.date as int) && shape.owner
            < shape.owner_end <= s@.len(),
{
    let mut at: usize = 0;
    while at < s.len()
        invariant
            at <= s@.len(),
            first_shape(s@, 0) == first_shape(s@, at as int),
        decreases s@.len() - at,
    {
        let found = find_shape_at(s, at);
        if found.is_some() {
            return found;
        }
        at += 1;
    }
    None
}

fn digit_of(c: char) -> (v: u32)
    requires
        is_digit(c),
    ensures
        v == digit_value(c),
        v <= 9,
{
    c as u32 - '0' as u32
}

/// The calendar date that the date shape at `at` denotes, if it denotes one.
pub fn read_date(s: &[char], at: usize) -> (r: Option<Date>)
    requires
        date_shape_at(s@, at as int),
    ensures
        r == date_at(s@, at as int),
        r matches Some(date) ==> date.wf(),
{
    let year = 1000 * digit_of(s[at]) + 100 * digit_of(s[at + 1]) + 10 * digit_of(s[at + 2])
        + digit_of(s[at + 3]);
    let month = 10 * digit_of(s[at + 5]) + digit_of(s[at + 6]);
    let day = 10 * digit_of(s[at + 8]) + digit_of(s[at + 9]);
    Date::new(year as i32, month, day)
}

} // verus!
