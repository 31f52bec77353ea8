//! Recovery of the answer from a streamed event envelope.
//!
//! The envelope is text. Each event is a line that starts with `data: `; what
//! follows is the event's chunk. The chunk `[DONE]` ends the stream. Any other
//! chunk may carry a fragment of the answer between the markers `"parts":["`
//! and `"]`. The envelope is taken to grow: a later event repeats and extends
//! the fragments of the earlier ones. So the answer is the fragment of the
//! last event that carries one, and fragments are never joined. For a stream
//! of bare increments that would be the wrong reading.

use crate::text::{
    chars_of, contains, find, find_first, is_whitespace, lemma_find_from, lemma_lines_of_append,
    lemma_lines_of_first, lemma_lines_of_last, lemma_replace_pair_leaves, lemma_trimmed, lines_of,
    matches_at, matches_here, replace_pair, replace_pair_in, split_lines, text_of, trim, trimmed,
    views_of, without_cr,
};
use vstd::prelude::*;
use vstd::slice::slice_subrange;

verus! {

/// The marker that opens an answer fragment inside a chunk.
pub open spec fn parts_open() -> Seq<char> {
    "\"parts\":[\""@
}

/// The marker that closes an answer fragment.
pub open spec fn parts_close() -> Seq<char> {
    "\"]"@
}

/// The prefix of an event line.
pub open spec fn data_prefix() -> Seq<char> {
    "data: "@
}

/// The chunk that ends a stream.
pub open spec fn done_sentinel() -> Seq<char> {
    "[DONE]"@
}

/// `s` with the four escape sequences resolved, one pass for each over the
/// whole text, in this order: backslash `n` to a line feed, backslash `r` to a
/// carriage return, backslash quote to a quote, two backslashes to one.
pub open spec fn unescaped(s: Seq<char>) -> Seq<char> {
    replace_pair(
        replace_pair(
            replace_pair(replace_pair(s, '\\', 'n', '\n'), '\\', 'r', '\r'),
            '\\',
            '"',
            '"',
        ),
        '\\',
        '\\',
        '\\',
    )
}

/// What stands between the first opening marker of `chunk` and the first
/// closing marker after it, where both are there.
pub open spec fn raw_fragment(chunk: Seq<char>) -> Option<Seq<char>> {
    match find(chunk, parts_open()) {
        None => None,
        Some(at) => {
            let rest = chunk.skip(at + parts_open().len());
            match find(rest, parts_close()) {
                None => None,
                Some(end) => Some(rest.take(end)),
            }
        },
    }
}

/// The answer fragment that `chunk` carries: its raw fragment, unescaped and
/// trimmed, unless nothing but white space is left of it.
pub open spec fn text_part(chunk: Seq<char>) -> Option<Seq<char>> {
    match raw_fragment(chunk) {
        None => None,
        Some(raw) => if trimmed(unescaped(raw)).len() == 0 {
            None
        } else {
            Some(trimmed(unescaped(raw)))
        },
    }
}

/// The answer fragment of one line of the envelope: that of its chunk, where
/// the line is an event and its chunk is not the end of the stream.
pub open spec fn line_answer(line: Seq<char>) -> Option<Seq<char>> {
    if data_prefix().is_prefix_of(line) && line.skip(data_prefix().len() as int)
        != done_sentinel() {
        text_part(line.skip(data_prefix().len() as int))
    } else {
        None
    }
}

/// The answer fragment of the last line that has one.
pub open spec fn last_answer(lines: Seq<Seq<char>>) -> Option<Seq<char>>
    decreases lines.len(),
{
    if lines.len() == 0 {
        None
    } else if line_answer(lines.last()) is Some {
        line_answer(lines.last())
    } else {
        last_answer(lines.drop_last())
    }
}

/// The answer that the envelope `raw` carries.
pub open spec fn sse_answer(raw: Seq<char>) -> Option<Seq<char>> {
    last_answer(lines_of(raw))
}

/// The view of an optional string.
pub open spec fn view_of(text: Option<String>) -> Option<Seq<char>> {
    match text {
        Some(t) => Some(t@),
        None => None,
    }
}

/// The view of an optional vector of characters.
pub open spec fn chars_view_of(chars: Option<Vec<char>>) -> Option<Seq<char>> {
    match chars {
        Some(c) => Some(c@),
        None => None,
    }
}

/// A copy of `chars` with the four escape sequences resolved.
pub fn unescape(chars: &[char]) -> (out: Vec<char>)
    ensures
        out@ == unescaped(chars@),
{
    let a = replace_pair_in(chars, '\\', 'n', '\n');
    let b = replace_pair_in(a.as_slice(), '\\', 'r', '\r');
    let c = replace_pair_in(b.as_slice(), '\\', '"', '"');
    replace_pair_in(c.as_slice(), '\\', '\\', '\\')
}

/// The view of an optional slice of characters.
pub open spec fn slice_view_of(chars: Option<&[char]>) -> Option<Seq<char>> {
    match chars {
        Some(c) => Some(c@),
        None => None,
    }
}

/// What stands between the first opening marker of `chunk` and the first
/// closing marker after it, where both are there.
pub fn raw_fragment_of(chunk: &[char]) -> (out: Option<&[char]>)
    ensures
        slice_view_of(out) == raw_fragment(chunk@),
{
    let open = chars_of("\"parts\":[\"");
    let close = chars_of("\"]");
    let at = match find_first(chunk, open.as_slice(), 0) {
        Some(at) => at,
        None => { return None; },
    };
    proof {
        lemma_find_from(chunk@, open@, 0);
    }
    let len = chunk.len();
    let rest = slice_subrange(chunk, at + open.len(), len);
    assert(rest@ =~= chunk@.skip(at + open@.len()));
    let end = match find_first(rest, close.as_slice(), 0) {
        Some(end) => end,
        None => { return None; },
    };
    proof {
        lemma_find_from(rest@, close@, 0);
    }
    let raw = slice_subrange(rest, 0, end);
    assert(raw@ =~= rest@.take(end as int));
    Some(raw)
}

/// The answer fragment of a chunk given as characters.
pub fn text_part_of(chunk: &[char]) -> (out: Option<Vec<char>>)
    ensures
        chars_view_of(out) == text_part(chunk@),
{
    let raw = match raw_fragment_of(chunk) {
        Some(raw) => raw,
        None => { return None; },
    };
    let plain = unescape(raw);
    let kept = trim(plain.as_slice());
    if kept.len() == 0 {
        None
    } else {
        let mut out: Vec<char> = Vec::new();
        out.extend_from_slice(kept);
        assert(out@ =~= kept@);
        Some(out)
    }
}

/// The answer fragment that one chunk of the envelope carries.
///
/// The fragment stands between the first `"parts":["` and the first `"]`
/// after it. A chunk without either marker carries none, and neither does one
/// whose fragment is white space only.
pub fn extract_text_part(json_line: &str) -> (out: Option<String>)
    ensures
        view_of(out) == text_part(json_line@),
{
    let chunk = chars_of(json_line);
    match text_part_of(chunk.as_slice()) {
        Some(part) => Some(text_of(part.as_slice())),
        None => None,
    }
}

/// The answer fragment of one line of the envelope given as characters.
pub fn line_answer_of(line: &[char]) -> (out: Option<Vec<char>>)
    ensures
        chars_view_of(out) == line_answer(line@),
{
    let prefix = chars_of("data: ");
    let done = chars_of("[DONE]");
    if !matches_here(line, prefix.as_slice(), 0) {
        return None;
    }
    let chunk = slice_subrange(line, prefix.len(), line.len());
    assert(chunk@ =~= line@.skip(prefix@.len() as int));
    if chunk.len() == done.len() && matches_here(chunk, done.as_slice(), 0) {
        assert(chunk@ =~= chunk@.subrange(0, done@.len() as int));
        return None;
    }
    assert(chunk@ != done@) by {
        if chunk@ == done@ {
            assert(chunk@.subrange(0, done@.len() as int) =~= done@);
        }
    }
    text_part_of(chunk)
}

/// The answer that a streamed envelope carries: the fragment of the last
/// event line that has one, or nothing where no line has one.
pub fn parse_sse_answer(raw_response: &str) -> (out: Option<String>)
    ensures
        view_of(out) == sse_answer(raw_response@),
{
    let chars = chars_of(raw_response);
    let lines = split_lines(chars.as_slice());
    let ghost all = views_of(lines@);
    let mut answer: Option<Vec<char>> = None;
    let mut i: usize = 0;
    while i < lines.len()
        invariant
            i <= lines@.len(),
            all == views_of(lines@),
            chars_view_of(answer) == last_answer(all.take(i as int)),
        decreases lines@.len() - i,
    {
        let found = line_answer_of(lines[i].as_slice());
        proof {
            let upto = all.take(i + 1);
            assert(upto.last() == lines@[i as int]@);
            assert(upto.drop_last() =~= all.take(i as int));
        }
        if found.is_some() {
            answer = found;
        }
        i += 1;
    }
    assert(all.take(i as int) =~= all);
    match answer {
        Some(part) => Some(text_of(part.as_slice())),
        None => None,
    }
}

/// Of two runs of lines the later one decides: its answer stands, and only
/// where it has none does the answer of the earlier run.
pub proof fn lemma_last_answer_concat(earlier: Seq<Seq<char>>, later: Seq<Seq<char>>)
    ensures
        last_answer(earlier + later) == if last_answer(later) is Some {
            last_answer(later)
        } else {
            last_answer(earlier)
        },
    decreases later.len(),
{
    if later.len() == 0 {
        assert(earlier + later =~= earlier);
    } else {
        assert((earlier + later).last() == later.last());
        assert((earlier + later).drop_last() =~= earlier + later.drop_last());
        lemma_last_answer_concat(earlier, later.drop_last());
    }
}

/// Last wins: the answer is the fragment of the line after which no line
/// has a fragment.
pub proof fn lemma_last_answer_is_latest(lines: Seq<Seq<char>>, at: int)
    requires
        0 <= at < lines.len(),
        line_answer(lines[at]) is Some,
        forall|j: int| at < j < lines.len() ==> line_answer(lines[j]) is None,
    ensures
        last_answer(lines) == line_answer(lines[at]),
    decreases lines.len(),
{
    if at < lines.len() - 1 {
        assert(line_answer(lines.last()) is None);
        assert(lines.drop_last()[at] == lines[at]);
        lemma_last_answer_is_latest(lines.drop_last(), at);
    }
}

/// There is no answer exactly where no line has a fragment.
pub proof fn lemma_no_answer(lines: Seq<Seq<char>>)
    ensures
        last_answer(lines) is None <==> forall|j: int|
            0 <= j < lines.len() ==> line_answer(#[trigger] lines[j]) is None,
    decreases lines.len(),
{
    if lines.len() > 0 {
        let front = lines.drop_last();
        lemma_no_answer(front);
        if line_answer(lines.last()) is None && last_answer(front) is None {
            assert forall|j: int| 0 <= j < lines.len() implies line_answer(
                #[trigger] lines[j],
            ) is None by {
                if j < lines.len() - 1 {
                    assert(front[j] == lines[j]);
                }
            }
        }
        if forall|j: int| 0 <= j < lines.len() ==> line_answer(#[trigger] lines[j]) is None {
            assert(line_answer(lines[lines.len() - 1]) is None);
            assert forall|j: int| 0 <= j < front.len() implies line_answer(
                #[trigger] front[j],
            ) is None by {
                assert(front[j] == lines[j]);
            }
        }
    }
}

/// Of two event lines that each carry a fragment the second gives the
/// answer, whatever the first carries.
pub proof fn lemma_later_event_wins(first: Seq<char>, second: Seq<char>)
    requires
        forall|i: int| 0 <= i < first.len() ==> first[i] != '\n',
        forall|i: int| 0 <= i < second.len() ==> second[i] != '\n',
        line_answer(second) is Some,
    ensures
        sse_answer(first + seq!['\n'] + second) == line_answer(second),
{
    assert(second.len() > 0) by {
        reveal_strlit("data: ");
    }
    lemma_lines_of_first(first, second);
    lemma_lines_of_last(second);
    let lines = seq![without_cr(first), second];
    assert(seq![without_cr(first)] + seq![second] =~= lines);
    lemma_last_answer_is_latest(lines, 1);
}

/// The line that ends a stream carries no fragment, and neither does a line
/// without the opening marker.
pub proof fn lemma_line_without_fragment(line: Seq<char>)
    requires
        line == data_prefix() + done_sentinel() || !contains(line, parts_open()),
    ensures
        line_answer(line) is None,
{
    let skipped = data_prefix().len() as int;
    if line == data_prefix() + done_sentinel() {
        assert(line.skip(skipped) =~= done_sentinel());
    } else if data_prefix().is_prefix_of(line) {
        let chunk = line.skip(skipped);
        lemma_find_from(chunk, parts_open(), 0);
        lemma_find_from(line, parts_open(), 0);
        if find(chunk, parts_open()) is Some {
            let at = find(chunk, parts_open())->0;
            assert(chunk.subrange(at, at + parts_open().len()) =~= line.subrange(
                at + skipped,
                at + skipped + parts_open().len(),
            ));
            assert(matches_at(line, parts_open(), at + skipped));
        }
    }
}

/// A line without fragment changes nothing: with it and without it the
/// answer is the same.
pub proof fn lemma_line_is_ignored(before: Seq<Seq<char>>, line: Seq<char>, after: Seq<Seq<char>>)
    requires
        line_answer(line) is None,
    ensures
        last_answer(before + seq![line] + after) == last_answer(before + after),
{
    let single = seq![line];
    assert(last_answer(single) is None) by {
        assert(single.last() == line);
        assert(single.drop_last() =~= Seq::<Seq<char>>::empty());
        assert(last_answer(Seq::<Seq<char>>::empty()) is None);
    }
    lemma_last_answer_concat(before + single, after);
    lemma_last_answer_concat(before, single);
    lemma_last_answer_concat(before, after);
}

/// An envelope carries the same answer with and without a line that has no
/// fragment, such as the line that ends the stream.
pub proof fn lemma_event_is_ignored(head: Seq<char>, line: Seq<char>, rest: Seq<char>)
    requires
        head.len() == 0 || head.last() == '\n',
        forall|i: int| 0 <= i < line.len() ==> line[i] != '\n',
        line_answer(without_cr(line)) is None,
    ensures
        sse_answer(head + line + seq!['\n'] + rest) == sse_answer(head + rest),
{
    lemma_lines_of_append(head, line + seq!['\n'] + rest);
    lemma_lines_of_append(head, rest);
    lemma_lines_of_first(line, rest);
    assert(head + (line + seq!['\n'] + rest) =~= head + line + seq!['\n'] + rest);
    lemma_line_is_ignored(lines_of(head), without_cr(line), lines_of(rest));
    assert(lines_of(head) + (seq![without_cr(line)] + lines_of(rest)) =~= lines_of(head)
        + seq![without_cr(line)] + lines_of(rest));
}

/// An answer is never empty, and it neither starts nor ends with white
/// space.
pub proof fn lemma_answer_is_trimmed(raw: Seq<char>)
    ensures
        sse_answer(raw) matches Some(answer) ==> answer.len() > 0 && !is_whitespace(
            answer.first(),
        ) && !is_whitespace(answer.last()),
{
    lemma_last_answer_is_trimmed(lines_of(raw));
}

/// The fragment of the last line that has one is never empty, and it neither
/// starts nor ends with white space.
pub proof fn lemma_last_answer_is_trimmed(lines: Seq<Seq<char>>)
    ensures
        last_answer(lines) matches Some(answer) ==> answer.len() > 0 && !is_whitespace(
            answer.first(),
        ) && !is_whitespace(answer.last()),
    decreases lines.len(),
{
    if lines.len() > 0 {
        if line_answer(lines.last()) is Some {
            let chunk = lines.last().skip(data_prefix().len() as int);
            lemma_trimmed(unescaped(raw_fragment(chunk)->0));
        } else {
            lemma_last_answer_is_trimmed(lines.drop_last());
        }
    }
}

/// A fragment without backslash holds no escape sequence: unescaping leaves
/// it as it is.
pub proof fn lemma_unescaped_leaves(s: Seq<char>)
    requires
        forall|i: int| 0 <= i < s.len() ==> s[i] != '\\',
    ensures
        unescaped(s) == s,
{
    lemma_replace_pair_leaves(s, '\\', 'n', '\n');
    lemma_replace_pair_leaves(s, '\\', 'r', '\r');
    lemma_replace_pair_leaves(s, '\\', '"', '"');
    lemma_replace_pair_leaves(s, '\\', '\\', '\\');
}

} // verus!
