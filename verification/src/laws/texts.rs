//! Texts taken apart and put together again.
use vstd::prelude::*;
use vstd::utf8::is_ascii_chars_encode_utf8;
use crate::json_laws::{decimals_spell_their_number, digit_char, spelled};
use crate::text::{
    all_digits, bytes_le, decimal, digits_value, has_nul, is_digit, is_hex_digit, is_lower,
    is_upper, join, opt_text, starts_with, texts, unsigned_digits, unsigned_number, utf8,
};
use crate::words::{
    cut_at, find, find_bounds, holds_text, is_space, label_end, labelled, lines, lines_from, parts,
    parts_from, run_bounds, run_end, words, words_from,
};

verus! {

/// The classes of bytes that texts are checked for.
pub proof fn bytes_have_their_class(byte: u8)
    ensures
        is_digit(byte) <==> 48 <= byte <= 57,
        is_lower(byte) <==> 97 <= byte <= 122,
        is_upper(byte) <==> 65 <= byte <= 90,
        is_hex_digit(byte) <==> 48 <= byte <= 57 || 97 <= byte <= 102,
{
}

/// A list of texts holds the text of each string in its place, and an optional
/// text is there where the string is.
pub proof fn texts_are_in_their_place(strings: Seq<String>, at: int, value: Option<String>)
    requires
        0 <= at < strings.len(),
    ensures
        texts(strings).len() == strings.len(),
        texts(strings)[at] == strings[at]@,
        opt_text(value) is Some <==> value is Some,
        value is Some ==> opt_text(value) == Some(value->0@),
{
}

/// Bytes hold a NUL where one of them is zero.
pub proof fn nul_is_the_zero_byte(bytes: Seq<u8>)
    ensures
        has_nul(bytes) <==> exists|i: int| 0 <= i < bytes.len() && #[trigger] bytes[i] == 0,
{
}

proof fn joins_begin_with_the_first(items: Seq<Seq<char>>, first: Seq<char>, separator: Seq<char>)
    requires
        items.len() > 0,
    ensures
        join(seq![first] + items, separator) == first + separator + join(items, separator),
    decreases items.len(),
{
    let all = seq![first] + items;
    assert(all.last() == items.last());
    assert(all.drop_last() =~= seq![first] + items.drop_last());
    if items.len() == 1 {
        assert(items.drop_last() =~= Seq::<Seq<char>>::empty());
        assert(all.drop_last() =~= seq![first]);
        assert(join(all.drop_last(), separator) == first);
    } else {
        joins_begin_with_the_first(items.drop_last(), first, separator);
        assert(join(all, separator) =~= first + separator + join(items, separator));
    }
}

/// A list is joined by its first text, the separator and the rest.
pub proof fn lists_are_joined_in_order(items: Seq<Seq<char>>, first: Seq<char>, separator: Seq<char>)
    ensures
        join(Seq::empty(), separator) == Seq::<char>::empty(),
        join(seq![first], separator) == first,
        items.len() > 0 ==> join(seq![first] + items, separator) == first + separator + join(
            items,
            separator,
        ),
{
    if items.len() > 0 {
        joins_begin_with_the_first(items, first, separator);
    }
}

proof fn parts_join_from(text: Seq<char>, mark: char, from: int)
    requires
        0 <= from <= text.len(),
    ensures
        parts_from(text, mark, from).len() > 0,
        join(parts_from(text, mark, from), seq![mark]) == text.skip(from),
        forall|i: int, k: int|
            0 <= i < parts_from(text, mark, from).len() && 0 <= k < parts_from(
                text,
                mark,
                from,
            )[i].len() ==> (#[trigger] parts_from(text, mark, from)[i][k]) != mark,
    decreases text.len() - from,
{
    find_bounds(text, mark, from);
    let at = find(text, mark, from);
    let found = parts_from(text, mark, from);
    if at >= text.len() {
        assert(found[0] =~= text.skip(from));
        assert(join(found, seq![mark]) == found[0]);
    } else {
        parts_join_from(text, mark, at + 1);
        let rest = parts_from(text, mark, at + 1);
        let first = text.subrange(from, at);
        assert(found =~= seq![first] + rest);
        joins_begin_with_the_first(rest, first, seq![mark]);
        assert(first + seq![mark] + text.skip(at + 1) =~= text.skip(from));
        assert forall|i: int, k: int|
            0 <= i < found.len() && 0 <= k < found[i].len() implies (#[trigger] found[i][k])
            != mark by {
            if i > 0 {
                assert(found[i] == rest[i - 1]);
                assert(rest[i - 1][k] != mark);
            } else {
                assert(found[0] == first);
            }
        }
    }
}

/// The parts of a text are free of the mark, and joined by it they are the text.
pub proof fn parts_make_the_text(text: Seq<char>, mark: char)
    ensures
        parts(text, mark).len() > 0,
        join(parts(text, mark), seq![mark]) == text,
        forall|i: int, k: int|
            0 <= i < parts(text, mark).len() && 0 <= k < parts(text, mark)[i].len() ==> (
            #[trigger] parts(text, mark)[i][k]) != mark,
{
    parts_join_from(text, mark, 0);
    assert(text.skip(0) =~= text);
}

/// A text is cut at its first mark, where it has one.
pub proof fn texts_are_cut_once(text: Seq<char>, mark: char)
    ensures
        cut_at(text, mark) is None <==> forall|i: int| 0 <= i < text.len() ==> text[i] != mark,
        cut_at(text, mark) matches Some(halves) ==> halves.0 + seq![mark] + halves.1 == text && (
        forall|i: int| 0 <= i < halves.0.len() ==> halves.0[i] != mark),
{
    find_bounds(text, mark, 0);
    if let Some(halves) = cut_at(text, mark) {
        assert(halves.0 + seq![mark] + halves.1 =~= text);
    }
}

proof fn labels_end(text: Seq<char>, from: int)
    requires
        0 <= from <= text.len(),
    ensures
        from <= label_end(text, from) <= text.len(),
        label_end(text, from) < text.len() ==> label_end(text, from) + 1 < text.len()
            && text[label_end(text, from)] == ':' && text[label_end(text, from) + 1] == ' ',
        forall|i: int|
            from <= i < label_end(text, from) && i + 1 < text.len() ==> !((#[trigger] text[i])
                == ':' && text[i + 1] == ' '),
    decreases text.len() - from,
{
    if from + 1 < text.len() && !(text[from] == ':' && text[from + 1] == ' ') {
        labels_end(text, from + 1);
    }
}

/// A label is what stands before the first colon that a space follows; a text
/// without one has no label.
pub proof fn labels_are_parted(text: Seq<char>)
    ensures
        labelled(text) is None <==> forall|i: int|
            0 <= i < text.len() - 1 ==> !((#[trigger] text[i]) == ':' && text[i + 1] == ' '),
        labelled(text) matches Some(halves) ==> halves.0 + seq![':', ' '] + halves.1 == text && (
        forall|i: int|
            0 <= i < halves.0.len() ==> !((#[trigger] text[i]) == ':' && text[i + 1] == ' ')),
{
    labels_end(text, 0);
    if let Some(halves) = labelled(text) {
        assert(halves.0 + seq![':', ' '] + halves.1 =~= text);
    }
}

/// A text starts with another where it is that text and something more.
pub proof fn beginnings_are_found(prefix: Seq<char>, more: Seq<char>, text: Seq<char>)
    ensures
        starts_with(prefix + more, prefix),
        starts_with(text, prefix) ==> text == prefix + text.skip(prefix.len() as int),
{
    assert((prefix + more).take(prefix.len() as int) =~= prefix);
    if starts_with(text, prefix) {
        assert(text =~= prefix + text.skip(prefix.len() as int));
    }
}

/// A text holds another where it is that text with something before and behind.
pub proof fn inner_texts_are_found(before: Seq<char>, part: Seq<char>, behind: Seq<char>, text: Seq<char>)
    ensures
        holds_text(before + part + behind, part),
        holds_text(text, part) ==> exists|at: int|
            0 <= at <= text.len() - part.len() && #[trigger] text.subrange(at, at + part.len())
                == part,
{
    let whole = before + part + behind;
    let at = before.len() as int;
    assert(whole.subrange(at, at + part.len()) =~= part);
}

proof fn marks_are_found_behind(text: Seq<char>, mark: char, skipped: int, from: int)
    requires
        0 <= skipped,
        0 <= from,
        skipped + from <= text.len(),
    ensures
        find(text, mark, skipped + from) == skipped + find(text.skip(skipped), mark, from),
    decreases text.len() - skipped - from,
{
    if skipped + from < text.len() && text[skipped + from] != mark {
        marks_are_found_behind(text, mark, skipped, from + 1);
    }
}

proof fn lines_are_found_behind(text: Seq<char>, skipped: int, from: int)
    requires
        0 <= skipped,
        0 <= from,
        skipped + from <= text.len(),
    ensures
        lines_from(text, skipped + from) == lines_from(text.skip(skipped), from),
    decreases text.len() - skipped - from,
{
    let rest = text.skip(skipped);
    if skipped + from < text.len() {
        marks_are_found_behind(text, '\n', skipped, from);
        find_bounds(rest, '\n', from);
        let at = find(rest, '\n', from);
        assert(text.subrange(skipped + from, skipped + at) =~= rest.subrange(from, at));
        if at < rest.len() {
            lines_are_found_behind(text, skipped, at + 1);
        } else {
            assert(text.subrange(skipped + from, text.len() as int) =~= rest.subrange(
                from,
                rest.len() as int,
            ));
        }
    }
}

/// A text is its first line, up to a line feed, and the lines behind it; one
/// carriage return before the line feed is dropped. What is not ended by a line
/// feed is a line as it is, unless it is empty.
pub proof fn lines_come_one_by_one(line: Seq<char>, rest: Seq<char>)
    requires
        forall|i: int| 0 <= i < line.len() ==> line[i] != '\n',
    ensures
        lines(line + seq!['\n'] + rest) == seq![
            if line.len() > 0 && line.last() == '\r' {
                line.drop_last()
            } else {
                line
            },
        ] + lines(rest),
        line.len() > 0 ==> lines(line) == seq![line],
        lines(Seq::empty()) == Seq::<Seq<char>>::empty(),
{
    let text = line + seq!['\n'] + rest;
    find_bounds(text, '\n', 0);
    let at = find(text, '\n', 0);
    assert(text[line.len() as int] == '\n');
    if at < line.len() {
        assert(text[at] == line[at]);
    }
    assert(at == line.len());
    assert(text.subrange(0, at) =~= line);
    lines_are_found_behind(text, at + 1, 0);
    assert(text.skip(at + 1) =~= rest);
    find_bounds(line, '\n', 0);
    assert(line.subrange(0, line.len() as int) =~= line);
}

proof fn runs_end_behind(text: Seq<char>, spaces: bool, skipped: int, from: int)
    requires
        0 <= skipped,
        0 <= from,
        skipped + from <= text.len(),
    ensures
        run_end(text, spaces, skipped + from) == skipped + run_end(
            text.skip(skipped),
            spaces,
            from,
        ),
    decreases text.len() - skipped - from,
{
    if skipped + from < text.len() && is_space(text[skipped + from]) == spaces {
        runs_end_behind(text, spaces, skipped, from + 1);
    }
}

proof fn words_are_found_behind(text: Seq<char>, skipped: int, from: int)
    requires
        0 <= skipped,
        0 <= from,
        skipped + from <= text.len(),
    ensures
        words_from(text, skipped + from) == words_from(text.skip(skipped), from),
    decreases text.len() - skipped - from,
{
    let rest = text.skip(skipped);
    runs_end_behind(text, true, skipped, from);
    run_bounds(rest, true, from);
    let start = run_end(rest, true, from);
    if start < rest.len() {
        runs_end_behind(text, false, skipped, start);
        run_bounds(rest, false, start);
        let end = run_end(rest, false, start);
        assert(text.subrange(skipped + start, skipped + end) =~= rest.subrange(start, end));
        words_are_found_behind(text, skipped, end);
    }
}

proof fn words_run_on(word: Seq<char>, rest: Seq<char>, from: int)
    requires
        0 <= from <= word.len(),
        forall|i: int| 0 <= i < word.len() ==> !is_space(#[trigger] word[i]),
        rest.len() == 0 || is_space(rest[0]),
    ensures
        run_end(word + rest, false, from) == word.len(),
    decreases word.len() - from,
{
    let text = word + rest;
    if from < word.len() {
        assert(text[from] == word[from]);
        words_run_on(word, rest, from + 1);
    } else if rest.len() > 0 {
        assert(text[from] == rest[0]);
    }
}

/// Spaces part words and are no part of them: a leading space changes nothing,
/// and a text that begins with a word is that word and the words behind it.
pub proof fn words_come_one_by_one(word: Seq<char>, rest: Seq<char>, space: char)
    requires
        is_space(space),
        forall|i: int| 0 <= i < word.len() ==> !is_space(#[trigger] word[i]),
        rest.len() == 0 || is_space(rest[0]),
    ensures
        words(Seq::empty()) == Seq::<Seq<char>>::empty(),
        words(seq![space] + rest) == words(rest),
        word.len() > 0 ==> words(word + rest) == seq![word] + words(rest),
{
    let led = seq![space] + rest;
    words_are_found_behind(led, 1, 0);
    assert(led.skip(1) =~= rest);
    assert(run_end(led, true, 0) == run_end(led, true, 1));
    run_bounds(led, true, 1);
    assert(words_from(led, 0) == words_from(led, 1));
    if word.len() > 0 {
        let text = word + rest;
        assert(text[0] == word[0]);
        assert(run_end(text, true, 0) == 0);
        words_run_on(word, rest, 0);
        let end = word.len() as int;
        assert(text.subrange(0, end) =~= word);
        words_are_found_behind(text, end, 0);
        assert(text.skip(end) =~= rest);
    }
}

/// The characters that part words.
pub proof fn spaces_are_white(c: char)
    ensures
        is_space(c) <==> {
            let code = c as int;
            9 <= code <= 13 || code == 32 || code == 0x85 || code == 0xa0 || code == 0x1680
                || 0x2000 <= code <= 0x200a || code == 0x2028 || code == 0x2029 || code == 0x202f
                || code == 0x205f || code == 0x3000
        },
{
}

/// Bytes are ordered by the first place where they differ, and what ends first
/// comes first.
pub proof fn first_differences_decide(left: Seq<u8>, right: Seq<u8>, at: int)
    requires
        0 <= at <= left.len(),
        at <= right.len(),
        left.take(at) == right.take(at),
    ensures
        at == left.len() ==> bytes_le(left, right),
        at == right.len() && at < left.len() ==> !bytes_le(left, right),
        at < left.len() && at < right.len() && left[at] < right[at] ==> bytes_le(left, right)
            && !bytes_le(right, left),
    decreases at,
{
    if at > 0 {
        assert(left[0] == left.take(at)[0]);
        assert(right[0] == right.take(at)[0]);
        assert(left.drop_first().take(at - 1) =~= left.take(at).drop_first());
        assert(right.drop_first().take(at - 1) =~= right.take(at).drop_first());
        first_differences_decide(left.drop_first(), right.drop_first(), at - 1);
    }
}

proof fn spelled_digits_have_their_value(digits: Seq<char>)
    requires
        forall|i: int| 0 <= i < digits.len() ==> digit_char(#[trigger] digits[i]),
    ensures
        utf8(digits).len() == digits.len(),
        all_digits(utf8(digits)),
        digits_value(utf8(digits)) == spelled(digits),
    decreases digits.len(),
{
    assert forall|i: int| 0 <= i < digits.len() implies '\0' <= #[trigger] digits[i] <= '\u{7f}' by {
        assert(digit_char(digits[i]));
    }
    is_ascii_chars_encode_utf8(digits);
    let bytes = utf8(digits);
    assert forall|i: int| 0 <= i < bytes.len() implies is_digit(#[trigger] bytes[i]) by {
        assert(digits[i] as u8 == bytes[i]);
        assert(digit_char(digits[i]));
    }
    if digits.len() > 0 {
        let less = digits.drop_last();
        assert forall|i: int| 0 <= i < less.len() implies digit_char(#[trigger] less[i]) by {
            assert(digit_char(digits[i]));
        }
        spelled_digits_have_their_value(less);
        assert forall|i: int| 0 <= i < less.len() implies '\0' <= #[trigger] less[i] <= '\u{7f}' by {
            assert(digit_char(digits[i]));
        }
        is_ascii_chars_encode_utf8(less);
        assert(bytes.drop_last() =~= utf8(less)) by {
            assert forall|i: int| 0 <= i < less.len() implies bytes[i] == utf8(less)[i] by {
                assert(digits[i] as u8 == bytes[i]);
                assert(less[i] as u8 == utf8(less)[i]);
            }
        }
        assert(digit_char(digits.last()));
        assert(digits[digits.len() - 1] as u8 == bytes[bytes.len() - 1]);
    }
}

/// A number that is written in decimal reads back, up to the bound, with or
/// without a plus sign.
pub proof fn written_numbers_read_back(n: nat, max: nat)
    ensures
        unsigned_number(decimal(n), max) == if n <= max {
            Some(n)
        } else {
            None
        },
        unsigned_number(seq!['+'] + decimal(n), max) == unsigned_number(decimal(n), max),
{
    decimals_spell_their_number(n);
    let digits = decimal(n);
    spelled_digits_have_their_value(digits);
    let bytes = utf8(digits);
    assert(digit_char(digits[0]));
    assert forall|i: int| 0 <= i < digits.len() implies '\0' <= #[trigger] digits[i] <= '\u{7f}' by {
        assert(digit_char(digits[i]));
    }
    is_ascii_chars_encode_utf8(digits);
    assert(digits[0] as u8 == bytes[0]);
    assert(unsigned_digits(bytes) == bytes);
    let signed = seq!['+'] + digits;
    assert forall|i: int| 0 <= i < signed.len() implies '\0' <= #[trigger] signed[i] <= '\u{7f}' by {
        if i > 0 {
            assert(digit_char(digits[i - 1]));
        }
    }
    is_ascii_chars_encode_utf8(signed);
    let led = utf8(signed);
    assert(signed[0] as u8 == led[0]);
    assert(unsigned_digits(led) =~= bytes) by {
        assert forall|i: int| 0 <= i < bytes.len() implies unsigned_digits(led)[i] == bytes[i] by {
            assert(signed[i + 1] as u8 == led[i + 1]);
            assert(digits[i] as u8 == bytes[i]);
        }
    }
}

} // verus!
