//! Character sequences: conversions between strings and `Vec<char>`, and the
//! small text operations the rest of the crate is built from.

use vstd::prelude::*;
use vstd::slice::{slice_subrange, slice_to_vec};
use vstd::string::StringSliceAdditionalSpecFns;
use vstd::utf8::{encode_utf8_decode_utf8, valid_utf8};

verus! {

/// The characters of `s`, in order.
pub fn chars_of(s: &str) -> (v: Vec<char>)
    ensures
        v@ == s@,
{
    let mut v: Vec<char> = Vec::new();
    for c in it: s.chars()
        invariant
            v@ == it.seq().take(it.index()),
            it.seq() == s@,
    {
        v.push(c);
    }
    v
}

/// Collects characters into a `String` with `Iterator::collect`; the string
/// holds exactly the given characters.
#[verifier::external_body]
pub(crate) fn string_from_chars(chars: &[char]) -> (s: String)
    ensures
        s@ == chars@,
{
    chars.iter().collect()
}

/// `std::str::from_utf8`: the bytes as text, if they are valid UTF-8.
#[verifier::external_body]
pub(crate) fn utf8_text(bytes: &[u8]) -> (r: Option<&str>)
    ensures
        r is Some <==> valid_utf8(bytes@),
        r matches Some(s) ==> s.spec_bytes() == bytes@,
{
    std::str::from_utf8(bytes).ok()
}

/// Whether two string slices hold the same characters.
pub fn str_eq(a: &str, b: &str) -> (r: bool)
    ensures
        r == (a@ == b@),
{
    let x = a.as_bytes();
    let y = b.as_bytes();
    proof {
        encode_utf8_decode_utf8(a@);
        encode_utf8_decode_utf8(b@);
    }
    if x.len() != y.len() {
        return false;
    }
    let mut i: usize = 0;
    while i < x.len()
        invariant
            i <= x.len(),
            x.len() == y.len(),
            x@ == a.spec_bytes(),
            y@ == b.spec_bytes(),
            forall|k: int| 0 <= k < i ==> x@[k] == y@[k],
        decreases x.len() - i,
    {
        if x[i] != y[i] {
            return false;
        }
        i += 1;
    }
    assert(x@ =~= y@);
    true
}

/// Unicode white space: the characters with the property `White_Space`.
pub open spec fn is_whitespace(c: char) -> bool {
    let u = c as u32;
    ||| 0x09 <= u <= 0x0D
    ||| u == 0x20
    ||| u == 0x85
    ||| u == 0xA0
    ||| u == 0x1680
    ||| 0x2000 <= u <= 0x200A
    ||| u == 0x2028
    ||| u == 0x2029
    ||| u == 0x202F
    ||| u == 0x205F
    ||| u == 0x3000
}

/// Whether `c` is white space.
pub fn is_space(c: char) -> (r: bool)
    ensures
        r == is_whitespace(c),
{
    let u = c as u32;
    (0x09 <= u && u <= 0x0D) || u == 0x20 || u == 0x85 || u == 0xA0 || u == 0x1680 || (0x2000 <= u
        && u <= 0x200A) || u == 0x2028 || u == 0x2029 || u == 0x202F || u == 0x205F || u == 0x3000
}

/// The length of the longest run of white space that starts at `from`.
pub open spec fn whitespace_run(s: Seq<char>, from: int) -> nat
    decreases s.len() - from,
{
    if 0 <= from < s.len() && is_whitespace(s[from]) {
        1 + whitespace_run(s, from + 1)
    } else {
        0
    }
}

/// The length of the longest run of white space that ends at the end of `s`.
pub open spec fn trailing_whitespace(s: Seq<char>) -> nat
    decreases s.len(),
{
    if s.len() > 0 && is_whitespace(s.last()) {
        1 + trailing_whitespace(s.drop_last())
    } else {
        0
    }
}

/// `s` without the white space at its end.
pub open spec fn trim_end(s: Seq<char>) -> Seq<char> {
    s.take(s.len() - trailing_whitespace(s))
}

/// `s` without the white space at its start.
pub open spec fn trim_start(s: Seq<char>) -> Seq<char> {
    s.skip(whitespace_run(s, 0) as int)
}

/// `s` without the white space at either end.
pub open spec fn trim(s: Seq<char>) -> Seq<char> {
    trim_start(trim_end(s))
}

/// A run of white space is what a scan finds: every character of it is white
/// space, and it stops at the end of the text or at another character.
pub proof fn lemma_whitespace_run(s: Seq<char>, from: int, to: int)
    requires
        0 <= from <= to <= s.len(),
        forall|k: int| from <= k < to ==> is_whitespace(#[trigger] s[k]),
        to == s.len() || !is_whitespace(s[to]),
    ensures
        whitespace_run(s, from) == to - from,
    decreases to - from,
{
    if from < to {
        lemma_whitespace_run(s, from + 1, to);
    }
}

/// A run never leaves the text.
pub proof fn lemma_whitespace_run_bound(s: Seq<char>, from: int)
    requires
        0 <= from <= s.len(),
    ensures
        from + whitespace_run(s, from) <= s.len(),
    decreases s.len() - from,
{
    if from < s.len() && is_whitespace(s[from]) {
        lemma_whitespace_run_bound(s, from + 1);
    }
}

/// The white space at the end of a text, as a scan from the end finds it.
pub proof fn lemma_trailing_whitespace(s: Seq<char>, end: int)
    requires
        0 <= end <= s.len(),
        forall|k: int| end <= k < s.len() ==> is_whitespace(#[trigger] s[k]),
        end == 0 || !is_whitespace(s[end - 1]),
    ensures
        trailing_whitespace(s) == s.len() - end,
    decreases s.len() - end,
{
    if end < s.len() {
        let shorter = s.drop_last();
        assert forall|k: int| end <= k < shorter.len() implies is_whitespace(
            #[trigger] shorter[k],
        ) by {
            assert(shorter[k] == s[k]);
        }
        lemma_trailing_whitespace(shorter, end);
    }
}

/// The end of the longest run of white space that starts at `from`.
pub fn skip_whitespace(s: &[char], from: usize) -> (to: usize)
    requires
        from <= s@.len(),
    ensures
        to == from + whitespace_run(s@, from as int),
        to <= s@.len(),
{
    let mut to = from;
    while to < s.len() && is_space(s[to])
        invariant
            from <= to <= s@.len(),
            forall|k: int| from <= k < to ==> is_whitespace(#[trigger] s@[k]),
        decreases s@.len() - to,
    {
        to += 1;
    }
    proof {
        lemma_whitespace_run(s@, from as int, to as int);
    }
    to
}

/// `s` without the white space at either end.
pub fn trimmed(s: &[char]) -> (r: &[char])
    ensures
        r@ == trim(s@),
{
    let mut end = s.len();
    while end > 0 && is_space(s[end - 1])
        invariant
            end <= s@.len(),
            forall|k: int| end <= k < s@.len() ==> is_whitespace(#[trigger] s@[k]),
        decreases end,
    {
        end -= 1;
    }
    proof {
        lemma_trailing_whitespace(s@, end as int);
    }
    let head = slice_subrange(s, 0, end);
    let start = skip_whitespace(head, 0);
    slice_subrange(head, start, end)
}

/// The texts of a list of character vectors.
pub open spec fn rows(list: Seq<Vec<char>>) -> Seq<Seq<char>> {
    list.map_values(|row: Vec<char>| row@)
}

/// The number of characters from `from` up to the next line feed, or to the
/// end of the text where none follows.
pub open spec fn line_len(s: Seq<char>, from: int) -> nat
    decreases s.len() - from,
{
    if 0 <= from < s.len() && s[from] != '\n' {
        1 + line_len(s, from + 1)
    } else {
        0
    }
}

/// The line that starts at `from` and runs up to `end`, where a line feed or
/// the end of the text stands. A carriage return just before the line feed
/// belongs to the line ending, not to the line.
pub open spec fn line_text(s: Seq<char>, from: int, end: int) -> Seq<char> {
    if from < end < s.len() && s[end - 1] == '\r' {
        s.subrange(from, end - 1)
    } else {
        s.subrange(from, end)
    }
}

/// The lines of the text from `from` on.
pub open spec fn lines_from(s: Seq<char>, from: int) -> Seq<Seq<char>>
    decreases s.len() - from,
{
    if from < 0 || from >= s.len() {
        Seq::empty()
    } else {
        let end = from + line_len(s, from);
        if end >= s.len() {
            seq![line_text(s, from, end)]
        } else {
            seq![line_text(s, from, end)] + lines_from(s, end + 1)
        }
    }
}

/// The lines of a text, without their line endings. A line ends in a line
/// feed, which a carriage return may precede; the last line need not end. The
/// empty text has no line.
pub open spec fn lines(s: Seq<char>) -> Seq<Seq<char>> {
    lines_from(s, 0)
}

/// The lines put together again, with one line feed between each two.
pub open spec fn join_lines(lines: Seq<Seq<char>>) -> Seq<char>
    decreases lines.len(),
{
    if lines.len() == 0 {
        Seq::empty()
    } else if lines.len() == 1 {
        lines[0]
    } else {
        join_lines(lines.drop_last()).push('\n') + lines.last()
    }
}

/// The length of a line is what a scan up to the next line feed finds.
pub proof fn lemma_line_len(s: Seq<char>, from: int, to: int)
    requires
        0 <= from <= to <= s.len(),
        forall|k: int| from <= k < to ==> #[trigger] s[k] != '\n',
        to == s.len() || s[to] == '\n',
    ensures
        line_len(s, from) == to - from,
    decreases to - from,
{
    if from < to {
        lemma_line_len(s, from + 1, to);
    }
}

/// The lines of a text.
pub fn split_lines(s: &[char]) -> (found: Vec<Vec<char>>)
    ensures
        rows(found@) == lines(s@),
{
    let mut found: Vec<Vec<char>> = Vec::new();
    let mut from: usize = 0;
    while from < s.len()
        invariant
            lines(s@) == rows(found@) + lines_from(s@, from as int),
        decreases s@.len() - from,
    {
        let mut end = from;
        while end < s.len() && s[end] != '\n'
            invariant
                from <= end <= s@.len(),
                forall|k: int| from <= k < end ==> #[trigger] s@[k] != '\n',
            decreases s@.len() - end,
        {
            end += 1;
        }
        proof {
            lemma_line_len(s@, from as int, end as int);
        }
        let stop = if from < end && end < s.len() && s[end - 1] == '\r' {
            end - 1
        } else {
            end
        };
        let line = slice_to_vec(slice_subrange(s, from, stop));
        found.push(line);
        if end == s.len() {
            from = end;
        } else {
            from = end + 1;
        }
    }
    found
}

/// The lines put together, with one line feed between each two.
pub fn joined(lines: &Vec<Vec<char>>) -> (text: Vec<char>)
    ensures
        text@ == join_lines(rows(lines@)),
{
    let mut text: Vec<char> = Vec::new();
    let mut at: usize = 0;
    while at < lines.len()
        invariant
            at <= lines@.len(),
            text@ == join_lines(rows(lines@).take(at as int)),
        decreases lines@.len() - at,
    {
        let ghost before = rows(lines@).take(at as int);
        let ghost after = rows(lines@).take(at + 1);
        assert(after.drop_last() == before);
        if at > 0 {
            text.push('\n');
        }
        text.extend_from_slice(lines[at].as_slice());
        at += 1;
    }
    assert(rows(lines@).take(at as int) == rows(lines@));
    text
}

/// The number of bytes that the UTF-8 encoding of `c` takes.
pub open spec fn char_width(c: char) -> nat {
    let u = c as u32;
    if u < 0x80 {
        1
    } else if u < 0x800 {
        2
    } else if u < 0x1_0000 {
        3
    } else {
        4
    }
}

/// The number of bytes that the UTF-8 encoding of `s` takes.
pub open spec fn byte_len(s: Seq<char>) -> nat
    decreases s.len(),
{
    if s.len() == 0 {
        0
    } else {
        byte_len(s.drop_last()) + char_width(s.last())
    }
}

/// The number of characters at the start of `s` that together take at most
/// `budget` bytes.
pub open spec fn fitting_prefix(s: Seq<char>, budget: nat) -> nat
    decreases s.len(),
{
    if s.len() > 0 && char_width(s[0]) <= budget {
        1 + fitting_prefix(s.drop_first(), (budget - char_width(s[0])) as nat)
    } else {
        0
    }
}

/// The number of characters at the end of `s` that together take at most
/// `budget` bytes.
pub open spec fn fitting_suffix(s: Seq<char>, budget: nat) -> nat
    decreases s.len(),
{
    if s.len() > 0 && char_width(s.last()) <= budget {
        1 + fitting_suffix(s.drop_last(), (budget - char_width(s.last())) as nat)
    } else {
        0
    }
}

/// The bytes of a text are those of its parts.
pub proof fn lemma_byte_len_add(a: Seq<char>, b: Seq<char>)
    ensures
        byte_len(a + b) == byte_len(a) + byte_len(b),
    decreases b.len(),
{
    if b.len() > 0 {
        assert((a + b).drop_last() == a + b.drop_last());
        lemma_byte_len_add(a, b.drop_last());
    }
}

/// A single character takes its width.
pub proof fn lemma_byte_len_one(c: char)
    ensures
        byte_len(seq![c]) == char_width(c),
{
    assert(seq![c].drop_last() == Seq::<char>::empty());
    assert(byte_len(Seq::<char>::empty()) == 0);
}

/// The number of bytes that the UTF-8 encoding of `c` takes.
pub fn width_of(c: char) -> (w: usize)
    ensures
        w == char_width(c),
        1 <= w <= 4,
{
    let u = c as u32;
    if u < 0x80 {
        1
    } else if u < 0x800 {
        2
    } else if u < 0x1_0000 {
        3
    } else {
        4
    }
}

/// Counts the characters at the start of `s` that fit into `budget` bytes.
pub fn count_fitting_prefix(s: &[char], budget: usize) -> (n: usize)
    ensures
        n == fitting_prefix(s@, budget as nat),
        n <= s@.len(),
        byte_len(s@.take(n as int)) <= budget,
        n == s@.len() <==> byte_len(s@) <= budget,
{
    let mut n: usize = 0;
    let mut used: usize = 0;
    assert(s@.skip(0) == s@);
    while n < s.len() && width_of(s[n]) <= budget - used
        invariant
            n <= s@.len(),
            used <= budget,
            used == byte_len(s@.take(n as int)),
            fitting_prefix(s@, budget as nat) == n + fitting_prefix(
                s@.skip(n as int),
                (budget - used) as nat,
            ),
        decreases s@.len() - n,
    {
        assert(s@.take(n + 1).drop_last() == s@.take(n as int));
        assert(s@.skip(n as int).drop_first() == s@.skip(n + 1));
        used += width_of(s[n]);
        n += 1;
    }
    proof {
        if n < s@.len() {
            assert(s@.take(n + 1).drop_last() == s@.take(n as int));
            assert(s@ == s@.take(n + 1) + s@.skip(n + 1));
            lemma_byte_len_add(s@.take(n + 1), s@.skip(n + 1));
        }
    }
    n
}

/// Counts the characters at the end of `s` that fit into `budget` bytes.
pub fn count_fitting_suffix(s: &[char], budget: usize) -> (n: usize)
    ensures
        n == fitting_suffix(s@, budget as nat),
        n <= s@.len(),
        byte_len(s@.skip(s@.len() - n)) <= budget,
        n == s@.len() <==> byte_len(s@) <= budget,
{
    let mut n: usize = 0;
    let mut used: usize = 0;
    assert(s@.take(s@.len() as int) == s@);
    while n < s.len() && width_of(s[s.len() - 1 - n]) <= budget - used
        invariant
            n <= s@.len(),
            used <= budget,
            used == byte_len(s@.skip(s@.len() - n)),
            fitting_suffix(s@, budget as nat) == n + fitting_suffix(
                s@.take(s@.len() - n),
                (budget - used) as nat,
            ),
        decreases s@.len() - n,
    {
        let ghost at = s@.len() - 1 - n;
        assert(s@.take(at + 1).drop_last() == s@.take(at));
        assert(s@.skip(at) == seq![s@[at]] + s@.skip(at + 1));
        proof {
            lemma_byte_len_add(seq![s@[at]], s@.skip(at + 1));
            lemma_byte_len_one(s@[at]);
        }
        used += width_of(s[s.len() - 1 - n]);
        n += 1;
    }
    proof {
        if n < s@.len() {
            let at = s@.len() - 1 - n;
            assert(s@.skip(at) == seq![s@[at]] + s@.skip(at + 1));
            lemma_byte_len_add(seq![s@[at]], s@.skip(at + 1));
            lemma_byte_len_one(s@[at]);
            assert(s@ == s@.take(at) + s@.skip(at));
            lemma_byte_len_add(s@.take(at), s@.skip(at));
        }
    }
    n
}

/// The character of a decimal digit.
pub open spec fn digit_char(digit: int) -> char
    recommends
        0 <= digit <= 9,
{
    (('0' as u8) + digit) as u8 as char
}

/// The decimal digits of `n`, without leading zeros.
pub open spec fn decimal(n: nat) -> Seq<char>
    decreases n,
{
    if n < 10 {
        seq![digit_char(n as int)]
    } else {
        decimal(n / 10).push(digit_char((n % 10) as int))
    }
}

/// Appends the decimal digits of `n`.
pub fn push_decimal(out: &mut Vec<char>, n: usize)
    ensures
        final(out)@ == old(out)@ + decimal(n as nat),
    decreases n,
{
    if n >= 10 {
        push_decimal(out, n / 10);
    }
    let digit = (n % 10) as u8;
    out.push((48u8 + digit) as char);
}

/// Whether `pattern` stands in `s` at `at`.
pub open spec fn stands_at(s: Seq<char>, at: int, pattern: Seq<char>) -> bool {
    0 <= at && at + pattern.len() <= s.len() && s.subrange(at, at + pattern.len()) == pattern
}

/// The text from `from` on, with each occurrence of `pattern` replaced by
/// `with`. Occurrences are taken from left to right and do not overlap. An
/// empty pattern occurs nowhere.
pub open spec fn replace_from(s: Seq<char>, from: int, pattern: Seq<char>, with: Seq<char>) -> Seq<
    char,
>
    decreases s.len() - from,
{
    if from < 0 || from >= s.len() {
        Seq::empty()
    } else if pattern.len() > 0 && stands_at(s, from, pattern) {
        with + replace_from(s, from + pattern.len(), pattern, with)
    } else {
        seq![s[from]] + replace_from(s, from + 1, pattern, with)
    }
}

/// The text with each occurrence of `pattern` replaced by `with`.
pub open spec fn replace_all(s: Seq<char>, pattern: Seq<char>, with: Seq<char>) -> Seq<char> {
    replace_from(s, 0, pattern, with)
}

/// Whether `pattern` stands in `s` at `at`.
pub fn has_at(s: &[char], at: usize, pattern: &[char]) -> (r: bool)
    requires
        at <= s@.len(),
    ensures
        r == stands_at(s@, at as int, pattern@),
{
    if pattern.len() > s.len() - at {
        return false;
    }
    let mut k: usize = 0;
    while k < pattern.len()
        invariant
            k <= pattern@.len(),
            at + pattern@.len() <= s@.len() <= usize::MAX,
            forall|j: int| 0 <= j < k ==> s@[at + j] == pattern@[j],
        decreases pattern@.len() - k,
    {
        if s[at + k] != pattern[k] {
            return false;
        }
        k += 1;
    }
    assert(s@.subrange(at as int, at + pattern@.len()) =~= pattern@);
    true
}

/// The text with each occurrence of `pattern` replaced by `with`.
pub fn replaced(s: &[char], pattern: &[char], with: &[char]) -> (out: Vec<char>)
    ensures
        out@ == replace_all(s@, pattern@, with@),
{
    let mut out: Vec<char> = Vec::new();
    let mut at: usize = 0;
    while at < s.len()
        invariant
            at <= s@.len(),
            replace_all(s@, pattern@, with@) == out@ + replace_from(
                s@,
                at as int,
                pattern@,
                with@,
            ),
        decreases s@.len() - at,
    {
        if pattern.len() > 0 && has_at(s, at, pattern) {
            out.extend_from_slice(with);
            at += pattern.len();
        } else {
            out.push(s[at]);
            at += 1;
        }
    }
    out
}

} // verus!
