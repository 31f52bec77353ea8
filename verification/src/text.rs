//! Character sequences: conversion between strings and character vectors,
//! trimming, searching, literal replacement and line splitting.
//!
//! Every operation is stated over `Seq<char>`, the view of a string, and is
//! carried out on slices of characters.

use vstd::prelude::*;
use vstd::slice::slice_subrange;
use vstd::std_specs::iter::IteratorSpec;
use vstd::string::StringExecFns;

verus! {

/// Whether std's `char::is_whitespace` holds of `c`: the character has the
/// Unicode property White_Space.
pub uninterp spec fn is_whitespace(c: char) -> bool;

/// The white space of ASCII: the blank, and the characters from the
/// horizontal tab to the carriage return.
pub open spec fn is_ascii_white_space(c: char) -> bool {
    c == ' ' || ('\t' <= c && c <= '\r')
}

/// Calls `char::is_whitespace`. Of the characters up to U+007F exactly the
/// blank and those from the tab to the carriage return have the property
/// White_Space; of the characters beyond them the contract only names the
/// answer.
#[verifier::external_body]
pub(crate) fn char_is_whitespace(c: char) -> (b: bool)
    ensures
        b == is_whitespace(c),
        c <= '\u{7f}' ==> b == is_ascii_white_space(c),
{
    c.is_whitespace()
}

/// Calls `String::push`, which appends one character at the end.
#[verifier::external_body]
pub(crate) fn push_char(s: &mut String, c: char)
    ensures
        final(s)@ == old(s)@.push(c),
{
    s.push(c)
}

/// The characters of a string slice, in order.
pub fn chars_of(s: &str) -> (out: Vec<char>)
    ensures
        out@ == s@,
{
    let mut out: Vec<char> = Vec::new();
    let it = s.chars();
    for c in iter: it
        invariant
            out@ == iter.seq().take(iter.index() as int),
            iter.seq() == s@,
    {
        out.push(c);
    }
    out
}

/// The string made of the given characters, in order.
pub fn text_of(chars: &[char]) -> (out: String)
    ensures
        out@ == chars@,
{
    let mut out = String::new();
    let mut i: usize = 0;
    while i < chars.len()
        invariant
            i <= chars@.len(),
            out@ == chars@.take(i as int),
        decreases chars@.len() - i,
    {
        push_char(&mut out, chars[i]);
        i += 1;
    }
    out
}

/// For each character of `s`, whether it is white space.
pub open spec fn white_space_marks(s: Seq<char>) -> Seq<bool> {
    Seq::new(s.len(), |i: int| is_whitespace(s[i]))
}

/// Number of marks that are set at the start of `marks`.
pub open spec fn leading_marks(marks: Seq<bool>) -> nat
    decreases marks.len(),
{
    if marks.len() > 0 && marks[0] {
        1 + leading_marks(marks.skip(1))
    } else {
        0
    }
}

/// Number of marks that are set at the end of `marks`.
pub open spec fn trailing_marks(marks: Seq<bool>) -> nat
    decreases marks.len(),
{
    if marks.len() > 0 && marks.last() {
        1 + trailing_marks(marks.drop_last())
    } else {
        0
    }
}

/// `s` without the marked characters at its start and at its end; `marks`
/// holds one mark for each character of `s`. Where every character is marked
/// nothing is left.
pub open spec fn trimmed_where(s: Seq<char>, marks: Seq<bool>) -> Seq<char> {
    if leading_marks(marks) >= s.len() {
        Seq::empty()
    } else {
        s.subrange(leading_marks(marks) as int, s.len() - trailing_marks(marks))
    }
}

/// `s` without the white space at its start and at its end. A sequence of
/// white space only trims to the empty sequence.
pub open spec fn trimmed(s: Seq<char>) -> Seq<char> {
    trimmed_where(s, white_space_marks(s))
}

/// Every mark of `marks` is set.
pub open spec fn all_set(marks: Seq<bool>) -> bool {
    forall|i: int| 0 <= i < marks.len() ==> #[trigger] marks[i]
}

/// Every character of `s` is white space.
pub open spec fn all_blank(s: Seq<char>) -> bool {
    forall|i: int| 0 <= i < s.len() ==> is_whitespace(#[trigger] s[i])
}

/// A run of `a` set marks at the start of `marks` that ends at the end of
/// `marks` or before a mark that is not set is the whole leading run.
pub proof fn lemma_leading_marks(marks: Seq<bool>, a: int)
    requires
        0 <= a <= marks.len(),
        forall|i: int| 0 <= i < a ==> marks[i],
        a == marks.len() || !marks[a],
    ensures
        leading_marks(marks) == a,
    decreases a,
{
    if a > 0 {
        let rest = marks.skip(1);
        assert forall|i: int| 0 <= i < a - 1 implies rest[i] by {
            assert(rest[i] == marks[i + 1]);
        }
        lemma_leading_marks(rest, a - 1);
    }
}

/// A run of `n` set marks at the end of `marks` that starts at the start of
/// `marks` or after a mark that is not set is the whole trailing run.
pub proof fn lemma_trailing_marks(marks: Seq<bool>, n: int)
    requires
        0 <= n <= marks.len(),
        forall|i: int| marks.len() - n <= i < marks.len() ==> marks[i],
        n == marks.len() || !marks[marks.len() - n - 1],
    ensures
        trailing_marks(marks) == n,
    decreases n,
{
    if n > 0 {
        let front = marks.drop_last();
        assert forall|i: int| front.len() - (n - 1) <= i < front.len() implies front[i] by {
            assert(front[i] == marks[i]);
        }
        lemma_trailing_marks(front, n - 1);
    }
}

/// The leading run of set marks holds set marks only, and the mark after
/// it, if there is one, is not set.
pub proof fn lemma_leading_marks_ends(marks: Seq<bool>)
    ensures
        leading_marks(marks) <= marks.len(),
        forall|i: int| 0 <= i < leading_marks(marks) ==> marks[i],
        leading_marks(marks) < marks.len() ==> !marks[leading_marks(marks) as int],
    decreases marks.len(),
{
    if marks.len() > 0 && marks[0] {
        let rest = marks.skip(1);
        lemma_leading_marks_ends(rest);
        assert forall|i: int| 0 <= i < leading_marks(marks) implies marks[i] by {
            if i > 0 {
                assert(marks[i] == rest[i - 1]);
            }
        }
        if leading_marks(rest) < rest.len() {
            assert(rest[leading_marks(rest) as int] == marks[leading_marks(rest) as int + 1]);
        }
    }
}

/// The trailing run of set marks holds set marks only, and the mark before
/// it, if there is one, is not set.
pub proof fn lemma_trailing_marks_ends(marks: Seq<bool>)
    ensures
        trailing_marks(marks) <= marks.len(),
        forall|i: int| marks.len() - trailing_marks(marks) <= i < marks.len() ==> marks[i],
        trailing_marks(marks) < marks.len() ==> !marks[marks.len() - trailing_marks(marks) - 1],
    decreases marks.len(),
{
    if marks.len() > 0 && marks.last() {
        let front = marks.drop_last();
        lemma_trailing_marks_ends(front);
        assert forall|i: int|
            marks.len() - trailing_marks(marks) <= i < marks.len() implies marks[i] by {
            if i < marks.len() - 1 {
                assert(marks[i] == front[i]);
            }
        }
        if trailing_marks(front) < front.len() {
            assert(front[front.len() - trailing_marks(front) - 1] == marks[marks.len()
                - trailing_marks(marks) - 1]);
        }
    }
}

/// What is left of `s` starts after the leading run of marked characters and
/// ends before the trailing run, and its first and its last character are not
/// marked. Nothing is left exactly where every character is marked.
pub proof fn lemma_trimmed_where(s: Seq<char>, marks: Seq<bool>)
    requires
        marks.len() == s.len(),
    ensures
        trimmed_where(s, marks).len() == 0 <==> all_set(marks),
        !all_set(marks) ==> {
            &&& leading_marks(marks) + trailing_marks(marks) < s.len()
            &&& trimmed_where(s, marks) == s.subrange(
                leading_marks(marks) as int,
                s.len() - trailing_marks(marks),
            )
            &&& !marks[leading_marks(marks) as int]
            &&& !marks[s.len() - trailing_marks(marks) - 1]
        },
{
    lemma_leading_marks_ends(marks);
    lemma_trailing_marks_ends(marks);
    let a = leading_marks(marks) as int;
    let n = trailing_marks(marks) as int;
    if a < s.len() {
        assert(!all_set(marks));
        assert(a < s.len() - n) by {
            if a >= s.len() - n {
                assert(marks[a]);
            }
        }
    }
}

/// What trimming does: `s` is white space, then `trimmed(s)`, then white
/// space again, and `trimmed(s)` neither starts nor ends with white space. It
/// is empty exactly where `s` is white space throughout.
pub proof fn lemma_trimmed(s: Seq<char>)
    ensures
        trimmed(s).len() == 0 <==> all_blank(s),
        trimmed(s).len() > 0 ==> !is_whitespace(trimmed(s).first()) && !is_whitespace(
            trimmed(s).last(),
        ),
        exists|before: Seq<char>, after: Seq<char>|
            all_blank(before) && all_blank(after) && s == before + trimmed(s) + after,
{
    let marks = white_space_marks(s);
    lemma_trimmed_where(s, marks);
    lemma_leading_marks_ends(marks);
    lemma_trailing_marks_ends(marks);
    let a = leading_marks(marks) as int;
    let n = trailing_marks(marks) as int;
    let none = Seq::<char>::empty();
    if all_set(marks) {
        assert forall|i: int| 0 <= i < s.len() implies is_whitespace(#[trigger] s[i]) by {
            assert(marks[i]);
        }
        assert(all_blank(s) && all_blank(none) && s =~= s + trimmed(s) + none);
    } else {
        assert(!all_blank(s)) by {
            if all_blank(s) {
                assert forall|i: int| 0 <= i < marks.len() implies #[trigger] marks[i] by {
                    assert(is_whitespace(s[i]));
                }
            }
        }
        let before = s.take(a);
        let after = s.skip(s.len() - n);
        assert(trimmed(s).first() == s[a]);
        assert(trimmed(s).last() == s[s.len() - n - 1]);
        assert forall|i: int| 0 <= i < before.len() implies is_whitespace(
            #[trigger] before[i],
        ) by {
            assert(marks[i]);
        }
        assert forall|i: int| 0 <= i < after.len() implies is_whitespace(#[trigger] after[i]) by {
            assert(marks[s.len() - n + i]);
        }
        assert(all_blank(before) && all_blank(after) && s =~= before + trimmed(s) + after);
    }
}

/// Every character of `s` is an ASCII character.
pub open spec fn all_ascii(s: Seq<char>) -> bool {
    forall|i: int| 0 <= i < s.len() ==> #[trigger] s[i] <= '\u{7f}'
}

/// For each character of `s`, whether it is white space of ASCII.
pub open spec fn ascii_marks(s: Seq<char>) -> Seq<bool> {
    Seq::new(s.len(), |i: int| is_ascii_white_space(s[i]))
}

/// For each character of `chars`, whether it is white space. In ASCII text
/// that is the blank and the characters from the tab to the carriage return.
pub fn white_space_marks_of(chars: &[char]) -> (marks: Vec<bool>)
    ensures
        marks@ == white_space_marks(chars@),
        all_ascii(chars@) ==> marks@ == ascii_marks(chars@),
{
    let mut marks: Vec<bool> = Vec::new();
    let mut i: usize = 0;
    while i < chars.len()
        invariant
            i <= chars@.len(),
            marks@.len() == i,
            forall|j: int| 0 <= j < i ==> marks@[j] == is_whitespace(chars@[j]),
            forall|j: int|
                0 <= j < i && chars@[j] <= '\u{7f}' ==> marks@[j] == is_ascii_white_space(
                    chars@[j],
                ),
        decreases chars@.len() - i,
    {
        marks.push(char_is_whitespace(chars[i]));
        i += 1;
    }
    assert(marks@ =~= white_space_marks(chars@));
    assert(all_ascii(chars@) ==> marks@ =~= ascii_marks(chars@));
    marks
}

/// The part of `chars` that is left when the marked characters at both ends
/// are taken away; `marks` holds one mark for each character.
pub fn trim_where<'a>(chars: &'a [char], marks: &[bool]) -> (out: &'a [char])
    requires
        marks@.len() == chars@.len(),
    ensures
        out@ == trimmed_where(chars@, marks@),
{
    let n = chars.len();
    let mut a: usize = 0;
    while a < n && marks[a]
        invariant
            a <= n,
            n == chars@.len(),
            n == marks@.len(),
            forall|i: int| 0 <= i < a ==> marks@[i],
        decreases n - a,
    {
        a += 1;
    }
    proof {
        lemma_leading_marks(marks@, a as int);
    }
    if a == n {
        return slice_subrange(chars, 0, 0);
    }
    let mut b: usize = n;
    while b > a && marks[b - 1]
        invariant
            a < b <= n,
            n == chars@.len(),
            n == marks@.len(),
            !marks@[a as int],
            forall|i: int| b <= i < n ==> marks@[i],
        decreases b,
    {
        b -= 1;
    }
    proof {
        lemma_trailing_marks(marks@, n - b);
    }
    slice_subrange(chars, a, b)
}

/// The part of `chars` that is left when the white space at both ends is
/// taken away.
pub fn trim(chars: &[char]) -> (out: &[char])
    ensures
        out@ == trimmed(chars@),
        all_ascii(chars@) ==> out@ == trimmed_where(chars@, ascii_marks(chars@)),
{
    let marks = white_space_marks_of(chars);
    trim_where(chars, marks.as_slice())
}

/// A copy of `s` without the white space at its start and at its end.
pub fn trim_text(s: &str) -> (out: String)
    ensures
        out@ == trimmed(s@),
        all_ascii(s@) ==> out@ == trimmed_where(s@, ascii_marks(s@)),
{
    let chars = chars_of(s);
    text_of(trim(chars.as_slice()))
}

/// `needle` stands in `hay` at position `at`.
pub open spec fn matches_at(hay: Seq<char>, needle: Seq<char>, at: int) -> bool {
    &&& 0 <= at
    &&& at + needle.len() <= hay.len()
    &&& hay.subrange(at, at + needle.len()) == needle
}

/// Position of the first occurrence of `needle` in `hay` that starts at
/// `from` or later, if there is one.
pub open spec fn find_from(hay: Seq<char>, needle: Seq<char>, from: int) -> Option<int>
    decreases hay.len() + 1 - from,
{
    if from < 0 || from + needle.len() > hay.len() {
        None
    } else if matches_at(hay, needle, from) {
        Some(from)
    } else {
        find_from(hay, needle, from + 1)
    }
}

/// Position of the first occurrence of `needle` in `hay`, if there is one.
pub open spec fn find(hay: Seq<char>, needle: Seq<char>) -> Option<int> {
    find_from(hay, needle, 0)
}

/// `needle` occurs somewhere in `hay`.
pub open spec fn contains(hay: Seq<char>, needle: Seq<char>) -> bool {
    find(hay, needle) is Some
}

/// What `find_from` returns is an occurrence with none between `from` and
/// it; it returns nothing only where no occurrence starts at `from` or later.
pub proof fn lemma_find_from(hay: Seq<char>, needle: Seq<char>, from: int)
    requires
        0 <= from,
    ensures
        match find_from(hay, needle, from) {
            Some(at) => {
                &&& from <= at
                &&& matches_at(hay, needle, at)
                &&& forall|j: int| from <= j < at ==> !matches_at(hay, needle, j)
            },
            None => forall|j: int| from <= j ==> !matches_at(hay, needle, j),
        },
    decreases hay.len() + 1 - from,
{
    if from + needle.len() <= hay.len() && !matches_at(hay, needle, from) {
        lemma_find_from(hay, needle, from + 1);
    }
}

/// Whether `needle` stands in `hay` at position `at`.
pub fn matches_here(hay: &[char], needle: &[char], at: usize) -> (b: bool)
    ensures
        b == matches_at(hay@, needle@, at as int),
{
    let n = hay.len();
    let m = needle.len();
    if at > n || m > n - at {
        return false;
    }
    let mut k: usize = 0;
    while k < m
        invariant
            k <= m,
            m == needle@.len(),
            n == hay@.len(),
            at + m <= n,
            forall|j: int| 0 <= j < k ==> hay@[at + j] == needle@[j],
        decreases m - k,
    {
        if hay[at + k] != needle[k] {
            assert(hay@.subrange(at as int, at + m)[k as int] == hay@[at + k]);
            return false;
        }
        k += 1;
    }
    assert(hay@.subrange(at as int, at + m) =~= needle@);
    true
}

/// The first position at or after `from` where `needle` stands in `hay`.
pub fn find_first(hay: &[char], needle: &[char], from: usize) -> (found: Option<usize>)
    ensures
        match found {
            Some(at) => find_from(hay@, needle@, from as int) == Some(at as int),
            None => find_from(hay@, needle@, from as int) is None,
        },
{
    let n = hay.len();
    let m = needle.len();
    if from > n {
        return None;
    }
    let mut at: usize = from;
    while m <= n - at
        invariant
            from <= at <= n,
            n == hay@.len(),
            m == needle@.len(),
            find_from(hay@, needle@, at as int) == find_from(hay@, needle@, from as int),
        decreases n - at,
    {
        if matches_here(hay, needle, at) {
            return Some(at);
        }
        assert(at < n) by {
            if at == n {
                assert(hay@.subrange(at as int, at + m) =~= needle@);
            }
        }
        at += 1;
    }
    None
}

/// `s` with every occurrence of the two characters `first`, `second`
/// replaced by `with`. Occurrences are taken from left to right and do not
/// overlap.
pub open spec fn replace_pair(s: Seq<char>, first: char, second: char, with: char) -> Seq<char>
    decreases s.len(),
{
    if s.len() < 2 {
        s
    } else if s[0] == first && s[1] == second {
        seq![with] + replace_pair(s.skip(2), first, second, with)
    } else {
        seq![s[0]] + replace_pair(s.skip(1), first, second, with)
    }
}

/// A copy of `chars` in which every occurrence of `first`, `second` is
/// replaced by `with`.
pub fn replace_pair_in(chars: &[char], first: char, second: char, with: char) -> (out: Vec<char>)
    ensures
        out@ == replace_pair(chars@, first, second, with),
{
    let n = chars.len();
    let mut out: Vec<char> = Vec::new();
    let mut i: usize = 0;
    assert(chars@.skip(0) =~= chars@);
    while i < n
        invariant
            i <= n,
            n == chars@.len(),
            out@ + replace_pair(chars@.skip(i as int), first, second, with) == replace_pair(
                chars@,
                first,
                second,
                with,
            ),
        decreases n - i,
    {
        let ghost rest = chars@.skip(i as int);
        let ghost before = out@;
        if i + 1 < n && chars[i] == first && chars[i + 1] == second {
            out.push(with);
            i += 2;
            assert(rest.skip(2) =~= chars@.skip(i as int));
        } else {
            out.push(chars[i]);
            i += 1;
            assert(rest.skip(1) =~= chars@.skip(i as int));
            assert(rest.len() < 2 ==> rest =~= seq![rest[0]] + rest.skip(1));
        }
        assert(out@ + replace_pair(chars@.skip(i as int), first, second, with) =~= before
            + replace_pair(rest, first, second, with));
    }
    assert(out@ + chars@.skip(n as int) =~= out@);
    out
}

/// Number of characters of `s` that stand before its first line feed, or the
/// length of `s` where it holds none.
pub open spec fn line_len(s: Seq<char>) -> nat
    decreases s.len(),
{
    if s.len() == 0 || s[0] == '\n' {
        0
    } else {
        1 + line_len(s.skip(1))
    }
}

/// `line` without the carriage return at its end, where it has one.
pub open spec fn without_cr(line: Seq<char>) -> Seq<char> {
    if line.len() > 0 && line.last() == '\r' {
        line.drop_last()
    } else {
        line
    }
}

/// The lines of `s`. A line ends with a line feed, which is not part of it,
/// nor is a carriage return directly before that line feed. What follows the
/// last line feed is one more line, taken as it is, unless it is empty.
pub open spec fn lines_of(s: Seq<char>) -> Seq<Seq<char>>
    decreases s.len(),
{
    if s.len() == 0 {
        Seq::empty()
    } else if line_len(s) >= s.len() {
        seq![s]
    } else {
        seq![without_cr(s.take(line_len(s) as int))] + lines_of(s.skip(line_len(s) as int + 1))
    }
}

/// The views of the vectors of `lines`.
pub open spec fn views_of(lines: Seq<Vec<char>>) -> Seq<Seq<char>> {
    lines.map_values(|line: Vec<char>| line@)
}

/// `line_len` never passes the end of the sequence, and it stops at a line
/// feed and at nothing else.
pub proof fn lemma_line_len(s: Seq<char>)
    ensures
        line_len(s) <= s.len(),
        line_len(s) < s.len() ==> s[line_len(s) as int] == '\n',
        forall|i: int| 0 <= i < line_len(s) ==> s[i] != '\n',
    decreases s.len(),
{
    if s.len() > 0 && s[0] != '\n' {
        let t = s.skip(1);
        lemma_line_len(t);
        assert forall|i: int| 0 <= i < line_len(s) implies s[i] != '\n' by {
            if i > 0 {
                assert(s[i] == t[i - 1]);
            }
        }
    }
}

/// A prefix without line feed that ends at a line feed or at the end of `s`
/// is the first line of `s`.
pub proof fn lemma_line_len_is(s: Seq<char>, k: int)
    requires
        0 <= k <= s.len(),
        forall|i: int| 0 <= i < k ==> s[i] != '\n',
        k == s.len() || s[k] == '\n',
    ensures
        line_len(s) == k,
{
    lemma_line_len(s);
}

/// A copy of the first `len` characters of `chars`.
fn copy_prefix(chars: &[char], len: usize) -> (out: Vec<char>)
    requires
        len <= chars@.len(),
    ensures
        out@ == chars@.take(len as int),
{
    let mut out: Vec<char> = Vec::new();
    let mut i: usize = 0;
    while i < len
        invariant
            i <= len <= chars@.len(),
            out@ == chars@.take(i as int),
        decreases len - i,
    {
        out.push(chars[i]);
        i += 1;
    }
    out
}

/// The lines of `chars`, each as a vector of its own.
pub fn split_lines(chars: &[char]) -> (out: Vec<Vec<char>>)
    ensures
        views_of(out@) == lines_of(chars@),
{
    let n = chars.len();
    let mut out: Vec<Vec<char>> = Vec::new();
    let mut start: usize = 0;
    assert(chars@.skip(0) =~= chars@);
    while start < n
        invariant
            start <= n,
            n == chars@.len(),
            views_of(out@) + lines_of(chars@.skip(start as int)) == lines_of(chars@),
        decreases n - start,
    {
        let ghost rest = chars@.skip(start as int);
        let ghost before = views_of(out@);
        let mut end: usize = start;
        while end < n && chars[end] != '\n'
            invariant
                start <= end <= n,
                n == chars@.len(),
                forall|i: int| start <= i < end ==> chars@[i] != '\n',
            decreases n - end,
        {
            end += 1;
        }
        proof {
            lemma_line_len_is(rest, end - start);
        }
        let tail = slice_subrange(chars, start, n);
        if end == n {
            let line = copy_prefix(tail, n - start);
            assert(line@ =~= rest);
            out.push(line);
            start = n;
            assert(views_of(out@) =~= before.push(rest));
            assert(lines_of(chars@.skip(n as int)) =~= Seq::<Seq<char>>::empty());
        } else {
            let len = if end > start && chars[end - 1] == '\r' {
                end - 1 - start
            } else {
                end - start
            };
            let line = copy_prefix(tail, len);
            let ghost first = rest.take(end - start);
            assert(first.len() > 0 ==> first.last() == chars@[end - 1]);
            assert(line@ =~= without_cr(first));
            out.push(line);
            assert(views_of(out@) =~= before.push(without_cr(first)));
            assert(rest.skip(end - start + 1) =~= chars@.skip(end + 1));
            start = end + 1;
        }
    }
    assert(lines_of(chars@.skip(n as int)) =~= Seq::<Seq<char>>::empty());
    out
}

/// The text `a` followed by the text `b`.
pub fn joined(a: &str, b: &str) -> (out: String)
    ensures
        out@ == a@ + b@,
{
    let mut out = a.to_owned();
    out.append(b);
    out
}

/// Text that ends with a line feed, or is empty, splits off: the lines of
/// what follows it are the same as if it stood alone.
pub proof fn lemma_lines_of_append(head: Seq<char>, rest: Seq<char>)
    requires
        head.len() == 0 || head.last() == '\n',
    ensures
        lines_of(head + rest) == lines_of(head) + lines_of(rest),
    decreases head.len(),
{
    if head.len() == 0 {
        assert(head + rest =~= rest);
        assert(lines_of(head) + lines_of(rest) =~= lines_of(rest));
    } else {
        let whole = head + rest;
        lemma_line_len(head);
        let k = line_len(head) as int;
        assert(k < head.len()) by {
            if k == head.len() {
                assert(head[head.len() - 1] != '\n');
            }
        }
        assert forall|i: int| 0 <= i < k implies whole[i] != '\n' by {
            assert(whole[i] == head[i]);
        }
        assert(whole[k] == head[k]);
        lemma_line_len_is(whole, k);
        let next = head.skip(k + 1);
        assert(whole.take(k) =~= head.take(k));
        assert(whole.skip(k + 1) =~= next + rest);
        assert(next.len() == 0 || next.last() == '\n') by {
            if next.len() > 0 {
                assert(next.last() == head.last());
            }
        }
        lemma_lines_of_append(next, rest);
        assert(lines_of(whole) =~= lines_of(head) + lines_of(rest));
    }
}

/// A line that is followed by a line feed is the first line of the text, but
/// for the carriage return that it may end with.
pub proof fn lemma_lines_of_first(line: Seq<char>, rest: Seq<char>)
    requires
        forall|i: int| 0 <= i < line.len() ==> line[i] != '\n',
    ensures
        lines_of(line + seq!['\n'] + rest) == seq![without_cr(line)] + lines_of(rest),
{
    let whole = line + seq!['\n'] + rest;
    let k = line.len() as int;
    assert forall|i: int| 0 <= i < k implies whole[i] != '\n' by {
        assert(whole[i] == line[i]);
    }
    assert(whole[k] == '\n');
    lemma_line_len_is(whole, k);
    assert(whole.take(k) =~= line);
    assert(whole.skip(k + 1) =~= rest);
}

/// A text without line feed is one line, or none where it is empty.
pub proof fn lemma_lines_of_last(line: Seq<char>)
    requires
        forall|i: int| 0 <= i < line.len() ==> line[i] != '\n',
    ensures
        lines_of(line) == if line.len() == 0 {
            Seq::<Seq<char>>::empty()
        } else {
            seq![line]
        },
{
    lemma_line_len_is(line, line.len() as int);
}

/// A text holds each of its parts.
pub proof fn lemma_contains_part(before: Seq<char>, part: Seq<char>, after: Seq<char>)
    ensures
        contains(before + part + after, part),
{
    let whole = before + part + after;
    let at = before.len() as int;
    assert(whole.subrange(at, at + part.len()) =~= part);
    assert(matches_at(whole, part, at));
    lemma_find_from(whole, part, 0);
}

/// Text without the first character of the pair is left as it is.
pub proof fn lemma_replace_pair_leaves(s: Seq<char>, first: char, second: char, with: char)
    requires
        forall|i: int| 0 <= i < s.len() ==> s[i] != first,
    ensures
        replace_pair(s, first, second, with) == s,
    decreases s.len(),
{
    if s.len() >= 2 {
        let rest = s.skip(1);
        assert forall|i: int| 0 <= i < rest.len() implies rest[i] != first by {
            assert(rest[i] == s[i + 1]);
        }
        lemma_replace_pair_leaves(rest, first, second, with);
        assert(seq![s[0]] + rest =~= s);
    }
}

} // verus!
