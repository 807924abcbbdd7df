//! Lines, words and parts of texts.
use vstd::prelude::*;
use vstd::slice::slice_subrange;
use vstd::string::*;
use crate::outside::text_of;
use crate::text::texts;

verus! {

/// The characters of a text.
pub fn chars_of(text: &str) -> (chars: Vec<char>)
    ensures
        chars@ == text@,
{
    broadcast use axiom_spec_iter;

    let mut chars: Vec<char> = Vec::new();
    for c in it: text.chars()
        invariant
            chars@ == it.seq().take(it.index() as int),
            it.seq() == text@,
    {
        chars.push(c);
    }
    assert(chars@ =~= text@);
    chars
}

/// The place of the first `mark` from `from` on, or the end.
pub open spec fn find(text: Seq<char>, mark: char, from: int) -> int
    decreases text.len() - from,
{
    if from >= text.len() {
        text.len() as int
    } else if text[from] == mark {
        from
    } else {
        find(text, mark, from + 1)
    }
}

/// A mark is found where it first stands.
pub proof fn find_bounds(text: Seq<char>, mark: char, from: int)
    requires
        0 <= from <= text.len(),
    ensures
        from <= find(text, mark, from) <= text.len(),
        find(text, mark, from) < text.len() ==> text[find(text, mark, from)] == mark,
        forall|i: int| from <= i < find(text, mark, from) ==> text[i] != mark,
    decreases text.len() - from,
{
    if from < text.len() && text[from] != mark {
        find_bounds(text, mark, from + 1);
    }
}

fn find_char(chars: &Vec<char>, mark: char, from: usize) -> (at: usize)
    requires
        from <= chars@.len(),
    ensures
        at == find(chars@, mark, from as int),
        from <= at <= chars@.len(),
{
    let mut at: usize = from;
    while at < chars.len() && chars[at] != mark
        invariant
            from <= at <= chars@.len(),
            find(chars@, mark, from as int) == find(chars@, mark, at as int),
        decreases chars.len() - at,
    {
        at += 1;
    }
    at
}

/// The parts of a text between marks, from `from` on.
pub open spec fn parts_from(text: Seq<char>, mark: char, from: int) -> Seq<Seq<char>>
    decreases text.len() - from,
    when 0 <= from <= text.len()
    via parts_end
{
    let at = find(text, mark, from);
    if at >= text.len() {
        seq![text.subrange(from, text.len() as int)]
    } else {
        seq![text.subrange(from, at)] + parts_from(text, mark, at + 1)
    }
}

#[via_fn]
proof fn parts_end(text: Seq<char>, mark: char, from: int) {
    find_bounds(text, mark, from);
}

/// All parts of a text between marks; one more than there are marks.
pub open spec fn parts(text: Seq<char>, mark: char) -> Seq<Seq<char>> {
    parts_from(text, mark, 0)
}

pub fn split_parts(text: &str, mark: char) -> (found: Vec<String>)
    ensures
        texts(found@) == parts(text@, mark),
{
    let chars = chars_of(text);
    let mut found: Vec<String> = Vec::new();
    let mut from: usize = 0;
    assert(texts(found@) + parts_from(chars@, mark, 0) =~= parts(text@, mark));
    loop
        invariant
            from <= chars@.len(),
            chars@ == text@,
            texts(found@) + parts_from(chars@, mark, from as int) == parts(text@, mark),
        decreases chars@.len() - from,
    {
        let at: usize = find_char(&chars, mark, from);
        let part = text_of(slice_subrange(chars.as_slice(), from, at));
        let ghost before = texts(found@);
        found.push(part);
        assert(texts(found@) =~= before.push(chars@.subrange(from as int, at as int)));
        if at >= chars.len() {
            assert(before + seq![chars@.subrange(from as int, at as int)] =~= texts(found@));
            return found;
        }
        assert(before + (seq![chars@.subrange(from as int, at as int)] + parts_from(
            chars@,
            mark,
            at + 1,
        )) =~= texts(found@) + parts_from(chars@, mark, at + 1));
        from = at + 1;
    }
}

/// A text before and after its first mark, where it has one.
pub open spec fn cut_at(text: Seq<char>, mark: char) -> Option<(Seq<char>, Seq<char>)> {
    let at = find(text, mark, 0);
    if at < text.len() {
        Some((text.subrange(0, at), text.subrange(at + 1, text.len() as int)))
    } else {
        None
    }
}

pub fn cut_once(text: &str, mark: char) -> (halves: Option<(String, String)>)
    ensures
        (match halves {
            Some(pair) => Some((pair.0@, pair.1@)),
            None => None,
        }) == cut_at(text@, mark),
{
    let chars = chars_of(text);
    let at: usize = find_char(&chars, mark, 0);
    if at < chars.len() {
        let head = text_of(slice_subrange(chars.as_slice(), 0, at));
        let tail = text_of(slice_subrange(chars.as_slice(), at + 1, chars.len()));
        Some((head, tail))
    } else {
        None
    }
}

/// The place of the first colon with a space behind it, from `from` on, or the
/// end.
pub open spec fn label_end(text: Seq<char>, from: int) -> int
    decreases text.len() - from,
{
    if from + 1 >= text.len() {
        text.len() as int
    } else if text[from] == ':' && text[from + 1] == ' ' {
        from
    } else {
        label_end(text, from + 1)
    }
}

/// A label and the text behind it, parted by a colon and a space.
pub open spec fn labelled(text: Seq<char>) -> Option<(Seq<char>, Seq<char>)> {
    let at = label_end(text, 0);
    if at < text.len() {
        Some((text.subrange(0, at), text.subrange(at + 2, text.len() as int)))
    } else {
        None
    }
}

/// Parts a text at its first colon that a space follows.
pub fn split_label(text: &str) -> (halves: Option<(String, String)>)
    ensures
        (match halves {
            Some(pair) => Some((pair.0@, pair.1@)),
            None => None,
        }) == labelled(text@),
{
    let chars = chars_of(text);
    let length: usize = chars.len();
    let mut at: usize = 0;
    while at < length && length - at > 1
        invariant
            at <= length,
            length == chars@.len(),
            chars@ == text@,
            label_end(text@, 0) == label_end(text@, at as int),
        decreases length - at,
    {
        if chars[at] == ':' && chars[at + 1] == ' ' {
            let head = text_of(slice_subrange(chars.as_slice(), 0, at));
            let tail = text_of(slice_subrange(chars.as_slice(), at + 2, length));
            return Some((head, tail));
        }
        at += 1;
    }
    None
}

/// One text stands somewhere inside another.
pub open spec fn holds_text(text: Seq<char>, part: Seq<char>) -> bool {
    exists|at: int|
        0 <= at <= text.len() - part.len() && #[trigger] text.subrange(at, at + part.len()) == part
}

fn part_at(chars: &Vec<char>, part: &Vec<char>, at: usize) -> (found: bool)
    requires
        at + part@.len() <= chars@.len(),
    ensures
        found == (chars@.subrange(at as int, at + part@.len()) == part@),
{
    let length: usize = chars.len();
    let mut i: usize = 0;
    while i < part.len()
        invariant
            i <= part@.len(),
            length == chars@.len(),
            at + part@.len() <= length,
            forall|j: int| 0 <= j < i ==> chars@[at + j] == #[trigger] part@[j],
        decreases part.len() - i,
    {
        if chars[at + i] != part[i] {
            assert(chars@.subrange(at as int, at + part@.len())[i as int] != part@[i as int]);
            return false;
        }
        i += 1;
    }
    assert(chars@.subrange(at as int, at + part@.len()) =~= part@);
    true
}

/// Whether one text stands somewhere inside another.
pub fn contains_text(text: &str, part: &str) -> (found: bool)
    ensures
        found == holds_text(text@, part@),
{
    let chars = chars_of(text);
    let wanted = chars_of(part);
    if chars.len() < wanted.len() {
        return false;
    }
    let last: usize = chars.len() - wanted.len();
    let mut at: usize = 0;
    loop
        invariant
            at <= last,
            last == chars@.len() - wanted@.len(),
            chars@ == text@,
            wanted@ == part@,
            forall|k: int|
                0 <= k < at ==> #[trigger] text@.subrange(k, k + part@.len()) != part@,
        decreases last - at,
    {
        if part_at(&chars, &wanted, at) {
            assert(text@.subrange(at as int, at + part@.len()) == part@);
            return true;
        }
        if at == last {
            return false;
        }
        at += 1;
    }
}

/// A line without the carriage return that ends it.
pub open spec fn without_return(line: Seq<char>) -> Seq<char> {
    if line.len() > 0 && line.last() == '\r' {
        line.drop_last()
    } else {
        line
    }
}

/// The lines of a text from `from` on. A line ends at a line feed, before
/// which one carriage return is dropped; the last line may lack the line feed,
/// and then keeps its carriage return.
pub open spec fn lines_from(text: Seq<char>, from: int) -> Seq<Seq<char>>
    decreases text.len() - from,
    when 0 <= from <= text.len()
    via lines_end
{
    if from == text.len() {
        seq![]
    } else {
        let at = find(text, '\n', from);
        if at >= text.len() {
            seq![text.subrange(from, text.len() as int)]
        } else {
            seq![without_return(text.subrange(from, at))] + lines_from(text, at + 1)
        }
    }
}

#[via_fn]
proof fn lines_end(text: Seq<char>, from: int) {
    find_bounds(text, '\n', from);
}

pub open spec fn lines(text: Seq<char>) -> Seq<Seq<char>> {
    lines_from(text, 0)
}

pub fn split_lines(text: &str) -> (found: Vec<String>)
    ensures
        texts(found@) == lines(text@),
{
    let chars = chars_of(text);
    let mut found: Vec<String> = Vec::new();
    let mut from: usize = 0;
    assert(texts(found@) + lines_from(chars@, 0) =~= lines(text@));
    while from < chars.len()
        invariant
            from <= chars@.len(),
            chars@ == text@,
            texts(found@) + lines_from(chars@, from as int) == lines(text@),
        decreases chars@.len() - from,
    {
        let at: usize = find_char(&chars, '\n', from);
        let ghost before = texts(found@);
        if at >= chars.len() {
            found.push(text_of(slice_subrange(chars.as_slice(), from, at)));
            assert(texts(found@) =~= before + seq![chars@.subrange(from as int, at as int)]);
            return found;
        }
        let mut end: usize = at;
        if end > from && chars[end - 1] == '\r' {
            end -= 1;
        }
        let ghost line = without_return(chars@.subrange(from as int, at as int));
        assert(chars@.subrange(from as int, end as int) =~= line);
        found.push(text_of(slice_subrange(chars.as_slice(), from, end)));
        assert(texts(found@) =~= before.push(line));
        assert(before + (seq![line] + lines_from(chars@, at + 1)) =~= texts(found@) + lines_from(
            chars@,
            at + 1,
        ));
        from = at + 1;
    }
    assert(texts(found@) + lines_from(chars@, from as int) =~= texts(found@));
    found
}

/// Characters with the Unicode property `White_Space`.
pub open spec fn is_space(c: char) -> bool {
    '\u{9}' <= c <= '\u{d}' || c == ' ' || c == '\u{85}' || c == '\u{a0}' || c == '\u{1680}'
        || '\u{2000}' <= c <= '\u{200a}' || c == '\u{2028}' || c == '\u{2029}' || c == '\u{202f}'
        || c == '\u{205f}' || c == '\u{3000}'
}

fn space(c: char) -> (holds: bool)
    ensures
        holds == is_space(c),
{
    ('\u{9}' <= c && c <= '\u{d}') || c == ' ' || c == '\u{85}' || c == '\u{a0}' || c == '\u{1680}'
        || ('\u{2000}' <= c && c <= '\u{200a}') || c == '\u{2028}' || c == '\u{2029}' || c
        == '\u{202f}' || c == '\u{205f}' || c == '\u{3000}'
}

/// The first place from `from` on that is a space, or is not one.
pub open spec fn run_end(text: Seq<char>, spaces: bool, from: int) -> int
    decreases text.len() - from,
{
    if from >= text.len() {
        text.len() as int
    } else if is_space(text[from]) != spaces {
        from
    } else {
        run_end(text, spaces, from + 1)
    }
}

/// A run ends at the first place that does not belong to it.
pub proof fn run_bounds(text: Seq<char>, spaces: bool, from: int)
    requires
        0 <= from <= text.len(),
    ensures
        from <= run_end(text, spaces, from) <= text.len(),
        run_end(text, spaces, from) < text.len() ==> is_space(text[run_end(text, spaces, from)])
            != spaces,
        from < text.len() && is_space(text[from]) == spaces ==> from < run_end(text, spaces, from),
    decreases text.len() - from,
{
    if from < text.len() && is_space(text[from]) == spaces {
        run_bounds(text, spaces, from + 1);
    }
}

fn end_of_run(chars: &Vec<char>, spaces: bool, from: usize) -> (at: usize)
    requires
        from <= chars@.len(),
    ensures
        at == run_end(chars@, spaces, from as int),
        from <= at <= chars@.len(),
{
    let mut at: usize = from;
    while at < chars.len() && space(chars[at]) == spaces
        invariant
            from <= at <= chars@.len(),
            run_end(chars@, spaces, from as int) == run_end(chars@, spaces, at as int),
        decreases chars.len() - at,
    {
        at += 1;
    }
    at
}

/// The words of a text from `from` on: what stands between runs of spaces.
pub open spec fn words_from(text: Seq<char>, from: int) -> Seq<Seq<char>>
    decreases text.len() - from,
    when 0 <= from <= text.len()
    via words_end
{
    let start = run_end(text, true, from);
    if start >= text.len() {
        seq![]
    } else {
        let end = run_end(text, false, start);
        seq![text.subrange(start, end)] + words_from(text, end)
    }
}

#[via_fn]
proof fn words_end(text: Seq<char>, from: int) {
    run_bounds(text, true, from);
    if run_end(text, true, from) < text.len() {
        run_bounds(text, false, run_end(text, true, from));
    }
}

pub open spec fn words(text: Seq<char>) -> Seq<Seq<char>> {
    words_from(text, 0)
}

pub fn split_words(text: &str) -> (found: Vec<String>)
    ensures
        texts(found@) == words(text@),
{
    let chars = chars_of(text);
    let mut found: Vec<String> = Vec::new();
    let mut from: usize = 0;
    assert(texts(found@) + words_from(chars@, 0) =~= words(text@));
    loop
        invariant
            from <= chars@.len(),
            chars@ == text@,
            texts(found@) + words_from(chars@, from as int) == words(text@),
        decreases chars@.len() - from,
    {
        let start: usize = end_of_run(&chars, true, from);
        if start >= chars.len() {
            assert(texts(found@) + words_from(chars@, from as int) =~= texts(found@));
            return found;
        }
        proof {
            run_bounds(chars@, true, from as int);
            run_bounds(chars@, false, start as int);
        }
        let end: usize = end_of_run(&chars, false, start);
        let ghost before = texts(found@);
        let ghost word = chars@.subrange(start as int, end as int);
        found.push(text_of(slice_subrange(chars.as_slice(), start, end)));
        assert(texts(found@) =~= before.push(word));
        assert(before + (seq![word] + words_from(chars@, end as int)) =~= texts(found@)
            + words_from(chars@, end as int));
        from = end;
    }
}

} // verus!
