//! What holds of the reading of text: what was put together is taken apart
//! again.

use vstd::prelude::*;
use vstd::string::*;
use vstd::utf8::*;

use crate::number::{
    decimal_of, decimal_of_nat, digit_char, digits_value, is_number, u32_of, unsigned_part,
};
use crate::order::not_after;
use crate::split::{
    first_word, joined, leading_word, lemma_first_word, lines_of, pieces_of, replaced,
    without_return, words_of,
};
use crate::text::{
    after_prefix, ascii_lower, before_last, begins_with, char_from, clipped, digit_value, find_from,
    has_text, is_digit, is_space, last_char, lemma_char_from, lemma_find_from, occurs_at,
    same_but_case, sides_of, trimmed, trimmed_end, trimmed_start, unwrapped, without_leading,
    without_trailing,
};
use crate::unicode::{letter_or_digit, lower_text, upper_text};

verus! {

// ---------------------------------------------------------------------------
// Searching
// ---------------------------------------------------------------------------

/// Whether a text stands in another, with something or nothing on either side.
pub open spec fn holds(s: Seq<char>, part: Seq<char>) -> bool {
    exists|before: Seq<char>, after: Seq<char>| s == #[trigger] (before + part + after)
}

/// A search finds exactly what stands in the text.
pub broadcast proof fn law_search(s: Seq<char>, part: Seq<char>)
    ensures
        #[trigger] has_text(s, part) == holds(s, part),
{
    if has_text(s, part) {
        let i = choose|i: int| occurs_at(s, part, i);
        let before = s.take(i);
        let after = s.skip(i + part.len());
        assert(s.subrange(i, i + part.len()) == part);
        assert forall|k: int| 0 <= k < part.len() implies s[i + k] == part[k] by {
            assert(s.subrange(i, i + part.len())[k] == part[k]);
        }
        assert(s =~= before + part + after);
    }
    if holds(s, part) {
        let (before, after) = choose|before: Seq<char>, after: Seq<char>|
            s == #[trigger] (before + part + after);
        let i = before.len() as int;
        assert(s.subrange(i, i + part.len()) =~= part);
        assert(occurs_at(s, part, i));
    }
}

/// A prefix is found exactly where the text begins with it, and what follows it
/// is what is left.
pub proof fn law_prefix(s: Seq<char>, prefix: Seq<char>)
    ensures
        begins_with(s, prefix) <==> prefix.is_prefix_of(s),
        after_prefix(s, prefix) is Some <==> prefix.is_prefix_of(s),
        after_prefix(s, prefix) matches Some(rest) ==> s == prefix + rest,
{
    if begins_with(s, prefix) {
        assert(s.subrange(0, prefix.len() as int) == prefix);
        assert(s =~= s.subrange(0, prefix.len() as int) + s.skip(prefix.len() as int));
    }
}

/// What stands behind a prefix is read back.
pub proof fn law_after_prefix(prefix: Seq<char>, rest: Seq<char>)
    ensures
        begins_with(prefix + rest, prefix),
        after_prefix(prefix + rest, prefix) == Some(rest),
{
    assert((prefix + rest).subrange(0, prefix.len() as int) =~= prefix);
    assert((prefix + rest).skip(prefix.len() as int) =~= rest);
}

/// The first place of a text is found, not a later one.
pub proof fn law_find_first(before: Seq<char>, part: Seq<char>, after: Seq<char>)
    requires
        forall|i: int| 0 <= i < before.len() ==> !occurs_at(before + part + after, part, i),
    ensures
        find_from(before + part + after, part, 0) == Some(before.len() as int),
{
    let s = before + part + after;
    lemma_find_from(s, part, 0);
    assert(s.subrange(before.len() as int, before.len() as int + part.len()) =~= part);
    assert(occurs_at(s, part, before.len() as int));
}

// ---------------------------------------------------------------------------
// Blanks
// ---------------------------------------------------------------------------

/// The characters of Unicode that are white space.
pub open spec fn white_space() -> Seq<char> {
    seq![
        '\u{9}', '\u{a}', '\u{b}', '\u{c}', '\u{d}', '\u{20}', '\u{85}', '\u{a0}', '\u{1680}',
        '\u{2000}', '\u{2001}', '\u{2002}', '\u{2003}', '\u{2004}', '\u{2005}', '\u{2006}',
        '\u{2007}', '\u{2008}', '\u{2009}', '\u{200a}', '\u{2028}', '\u{2029}', '\u{202f}',
        '\u{205f}', '\u{3000}',
    ]
}

/// The white space of Unicode is told from everything else.
pub proof fn law_white_space(c: char)
    ensures
        is_space(c) <==> white_space().contains(c),
{
    let w = white_space();
    assert(w[0] == '\u{9}' && w[1] == '\u{a}' && w[2] == '\u{b}' && w[3] == '\u{c}');
    assert(w[4] == '\u{d}' && w[5] == '\u{20}' && w[6] == '\u{85}' && w[7] == '\u{a0}');
    assert(w[8] == '\u{1680}' && w[9] == '\u{2000}' && w[10] == '\u{2001}');
    assert(w[11] == '\u{2002}' && w[12] == '\u{2003}' && w[13] == '\u{2004}');
    assert(w[14] == '\u{2005}' && w[15] == '\u{2006}' && w[16] == '\u{2007}');
    assert(w[17] == '\u{2008}' && w[18] == '\u{2009}' && w[19] == '\u{200a}');
    assert(w[20] == '\u{2028}' && w[21] == '\u{2029}' && w[22] == '\u{202f}');
    assert(w[23] == '\u{205f}' && w[24] == '\u{3000}');
}

/// Whether a text is made of white space, or of nothing.
pub open spec fn all_space(s: Seq<char>) -> bool {
    forall|i: int| 0 <= i < s.len() ==> is_space(#[trigger] s[i])
}

/// Whether a text neither begins nor ends with white space.
pub open spec fn is_bare(s: Seq<char>) -> bool {
    s.len() > 0 ==> !is_space(s[0]) && !is_space(s.last())
}

/// Whether a text holds no white space.
pub open spec fn no_space(s: Seq<char>) -> bool {
    forall|i: int| 0 <= i < s.len() ==> !is_space(#[trigger] s[i])
}

pub(crate) proof fn lemma_trimmed_start(lead: Seq<char>, s: Seq<char>)
    requires
        all_space(lead),
    ensures
        trimmed_start(lead + s) == trimmed_start(s),
    decreases lead.len(),
{
    if lead.len() == 0 {
        assert(lead + s =~= s);
    } else {
        let t = lead + s;
        assert(t[0] == lead[0]);
        assert(t.skip(1) =~= lead.skip(1) + s);
        lemma_trimmed_start(lead.skip(1), s);
    }
}

pub(crate) proof fn lemma_trimmed_end(s: Seq<char>, trail: Seq<char>)
    requires
        all_space(trail),
    ensures
        trimmed_end(s + trail) == trimmed_end(s),
    decreases trail.len(),
{
    if trail.len() == 0 {
        assert(s + trail =~= s);
    } else {
        let t = s + trail;
        assert(t.last() == trail[trail.len() - 1]);
        assert(t.drop_last() =~= s + trail.drop_last());
        lemma_trimmed_end(s, trail.drop_last());
    }
}

/// The blanks around a text are taken away, and nothing else is.
pub proof fn law_trim(lead: Seq<char>, s: Seq<char>, trail: Seq<char>)
    requires
        all_space(lead),
        is_bare(s),
        all_space(trail),
    ensures
        trimmed(lead + s + trail) == s,
        trimmed_start(lead + s) == s,
{
    if s.len() == 0 {
        assert(lead + s + trail =~= (lead + trail) + s);
        assert forall|i: int| 0 <= i < (lead + trail).len() implies is_space(
            #[trigger] (lead + trail)[i],
        ) by {
            if i >= lead.len() {
                assert((lead + trail)[i] == trail[i - lead.len()]);
            }
        }
        lemma_trimmed_start(lead + trail, s);
        lemma_trimmed_start(lead, s);
    } else {
        assert(lead + s + trail =~= lead + (s + trail));
        lemma_trimmed_start(lead, s + trail);
        assert((s + trail)[0] == s[0]);
        lemma_trimmed_end(s, trail);
        lemma_trimmed_start(lead, s);
    }
}

// ---------------------------------------------------------------------------
// Lines
// ---------------------------------------------------------------------------

/// Lines one after the other, each with the ending behind it.
pub open spec fn ended(lines: Seq<Seq<char>>, ending: Seq<char>) -> Seq<char>
    decreases lines.len(),
{
    if lines.len() == 0 {
        Seq::empty()
    } else {
        lines[0] + ending + ended(lines.skip(1), ending)
    }
}

/// Whether a text is one line: no line feed in it, no carriage return at its end.
pub open spec fn is_line(s: Seq<char>) -> bool {
    &&& !s.contains('\n')
    &&& s.len() > 0 ==> s.last() != '\r'
}

/// Whether all texts are lines.
pub open spec fn are_lines(lines: Seq<Seq<char>>) -> bool {
    forall|i: int| 0 <= i < lines.len() ==> is_line(#[trigger] lines[i])
}

pub(crate) proof fn lemma_char_from_first(before: Seq<char>, c: char, after: Seq<char>)
    requires
        !before.contains(c),
    ensures
        char_from(before + seq![c] + after, c, 0) == Some(before.len() as int),
        (before + seq![c] + after).take(before.len() as int) == before,
        (before + seq![c] + after).skip(before.len() as int + 1) == after,
{
    let s = before + seq![c] + after;
    lemma_char_from(s, c, 0);
    assert(s[before.len() as int] == c);
    assert forall|i: int| 0 <= i < before.len() implies s[i] != c by {
        assert(s[i] == before[i]);
        assert(before.contains(before[i]));
    }
    assert(s.take(before.len() as int) =~= before);
    assert(s.skip(before.len() as int + 1) =~= after);
}

pub(crate) proof fn lemma_char_from_none(s: Seq<char>, c: char)
    requires
        !s.contains(c),
    ensures
        char_from(s, c, 0) is None,
{
    lemma_char_from(s, c, 0);
    match char_from(s, c, 0) {
        Some(k) => {
            assert(s.contains(s[k]));
        },
        None => {},
    }
}

pub(crate) proof fn lemma_first_line(line: Seq<char>, ending: Seq<char>, rest: Seq<char>)
    requires
        is_line(line),
        ending == seq!['\n'] || ending == seq!['\r', '\n'],
    ensures
        lines_of(line + ending + rest) == seq![line] + lines_of(rest),
{
    let s = line + ending + rest;
    if ending == seq!['\n'] {
        lemma_char_from_first(line, '\n', rest);
        assert(s =~= line + seq!['\n'] + rest);
    } else {
        let head = line.push('\r');
        assert(s =~= head + seq!['\n'] + rest);
        if head.contains('\n') {
            let i = choose|i: int| 0 <= i < head.len() && head[i] == '\n';
            assert(line[i] == '\n');
        }
        lemma_char_from_first(head, '\n', rest);
        assert(without_return(head) =~= line);
    }
}

/// Lines are read back as they were written, whichever of the two endings they
/// have, and so is a last one without an ending.
pub proof fn law_lines_are_read_back(lines: Seq<Seq<char>>, ending: Seq<char>, last: Seq<char>)
    requires
        are_lines(lines),
        ending == seq!['\n'] || ending == seq!['\r', '\n'],
        !last.contains('\n'),
    ensures
        lines_of(ended(lines, ending) + last) == if last.len() == 0 {
            lines
        } else {
            lines.push(last)
        },
    decreases lines.len(),
{
    let s = ended(lines, ending) + last;
    if lines.len() == 0 {
        assert(s =~= last);
        lemma_char_from_none(last, '\n');
        if last.len() == 0 {
            assert(lines_of(s) =~= lines);
        } else {
            assert(lines_of(s) =~= lines.push(last));
        }
    } else {
        let rest = lines.skip(1);
        assert forall|i: int| 0 <= i < rest.len() implies is_line(#[trigger] rest[i]) by {
            assert(rest[i] == lines[i + 1]);
        }
        law_lines_are_read_back(rest, ending, last);
        assert(s =~= lines[0] + ending + (ended(rest, ending) + last));
        assert(is_line(lines[0]));
        lemma_first_line(lines[0], ending, ended(rest, ending) + last);
        if last.len() == 0 {
            assert(seq![lines[0]] + rest =~= lines);
        } else {
            assert(seq![lines[0]] + rest.push(last) =~= lines.push(last));
        }
    }
}

/// Lines, each with a line feed behind it, as a program prints them.
pub open spec fn text_of(lines: Seq<Seq<char>>) -> Seq<char> {
    ended(lines, seq!['\n'])
}

/// What was printed line by line is read line by line.
pub proof fn law_printed_lines(lines: Seq<Seq<char>>)
    requires
        are_lines(lines),
    ensures
        lines_of(text_of(lines)) == lines,
{
    law_lines_are_read_back(lines, seq!['\n'], Seq::empty());
    assert(text_of(lines) + Seq::<char>::empty() =~= text_of(lines));
}

proof fn lemma_trimmed_end_keeps(s: Seq<char>, tail: Seq<char>) -> (k: int)
    requires
        s.len() > 0,
        !is_space(s.last()),
    ensures
        0 <= k <= tail.len(),
        trimmed_end(s + tail) == s + tail.take(k),
        k > 0 ==> !is_space(tail[k - 1]),
    decreases tail.len(),
{
    let t = s + tail;
    if tail.len() == 0 {
        assert(t =~= s);
        assert(s + tail.take(0) =~= s);
        0
    } else {
        assert(t.last() == tail[tail.len() - 1]);
        if is_space(t.last()) {
            assert(t.drop_last() =~= s + tail.drop_last());
            let k = lemma_trimmed_end_keeps(s, tail.drop_last());
            assert(tail.drop_last().take(k) =~= tail.take(k));
            if k > 0 {
                assert(tail.drop_last()[k - 1] == tail[k - 1]);
            }
            k
        } else {
            assert(tail.take(tail.len() as int) =~= tail);
            tail.len() as int
        }
    }
}

/// Whether a text ends a line: it is empty, or starts with one of the two
/// endings.
pub open spec fn ends_line(tail: Seq<char>) -> bool {
    ||| tail.len() == 0
    ||| tail[0] == '\n'
    ||| tail.len() > 1 && tail[0] == '\r' && tail[1] == '\n'
}

/// The first line that says something is read, whatever blanks and lines stand
/// before it and whatever follows.
pub proof fn law_first_line(lead: Seq<char>, line: Seq<char>, tail: Seq<char>)
    requires
        all_space(lead),
        line.len() > 0,
        is_bare(line),
        is_line(line),
        ends_line(tail),
    ensures
        lines_of(trimmed(lead + line + tail)).len() > 0,
        lines_of(trimmed(lead + line + tail))[0] == line,
        trimmed(lead + line + tail).len() > 0,
        trimmed(line) == line,
{
    let none = Seq::<char>::empty();
    law_trim(none, line, none);
    assert(none + line + none =~= line);
    assert(lead + line + tail =~= lead + (line + tail));
    lemma_trimmed_start(lead, line + tail);
    assert((line + tail)[0] == line[0]);
    let k = lemma_trimmed_end_keeps(line, tail);
    let t = tail.take(k);
    assert(trimmed(lead + line + tail) == line + t);
    if k == 0 {
        assert(line + t =~= line);
        lemma_char_from_none(line, '\n');
    } else if tail[0] == '\n' {
        assert(line + t =~= line + seq!['\n'] + t.skip(1));
        lemma_first_line(line, seq!['\n'], t.skip(1));
    } else {
        assert(k > 2) by {
            assert(is_space(tail[0]) && is_space(tail[1]));
        }
        assert(line + t =~= line + seq!['\r', '\n'] + t.skip(2));
        lemma_first_line(line, seq!['\r', '\n'], t.skip(2));
    }
}

/// The last line that says something is read, whatever lines stand before it and
/// whatever blanks follow.
pub proof fn law_last_line(before: Seq<char>, line: Seq<char>, trail: Seq<char>)
    requires
        before.len() > 0 ==> before.last() == '\n',
        line.len() > 0,
        is_bare(line),
        is_line(line),
        all_space(trail),
    ensures
        lines_of(trimmed(before + line + trail)).len() > 0,
        lines_of(trimmed(before + line + trail)).last() == line,
{
    let s = before + line;
    assert(s.last() == line.last());
    assert(before + line + trail =~= s + trail);
    let (k, start) = lemma_trimmed_start_of(s, trail);
    lemma_trimmed_end(start, trail);
    assert(start.last() == s.last());
    assert(trimmed(s + trail) == start);
    let head = before.skip(k);
    assert(k <= before.len()) by {
        if k > before.len() {
            assert(s[k - 1] == line[k - 1 - before.len()]);
            assert(is_space(s[before.len() as int]));
            assert(s[before.len() as int] == line[0]);
        }
    }
    assert(start =~= head + line);
    if head.len() > 0 {
        assert(head.last() == before.last());
    }
    lemma_last_line(head, line);
}

proof fn lemma_trimmed_start_of(s: Seq<char>, trail: Seq<char>) -> (r: (int, Seq<char>))
    requires
        s.len() > 0,
        !is_space(s.last()),
    ensures
        0 <= r.0 < s.len(),
        r.1 == s.skip(r.0),
        trimmed_start(s + trail) == r.1 + trail,
        forall|i: int| 0 <= i < r.0 ==> is_space(#[trigger] s[i]),
    decreases s.len(),
{
    let t = s + trail;
    if is_space(s[0]) {
        assert(t[0] == s[0]);
        assert(t.skip(1) =~= s.skip(1) + trail);
        assert(s.len() > 1) by {
            assert(s.last() == s[s.len() - 1]);
        }
        assert(s.skip(1).last() == s.last());
        let r = lemma_trimmed_start_of(s.skip(1), trail);
        assert(s.skip(1).skip(r.0) =~= s.skip(r.0 + 1));
        assert forall|i: int| 0 <= i < r.0 + 1 implies is_space(#[trigger] s[i]) by {
            if i > 0 {
                assert(s.skip(1)[i - 1] == s[i]);
            }
        }
        (r.0 + 1, r.1)
    } else {
        assert(t[0] == s[0]);
        assert(s.skip(0) =~= s);
        (0, s)
    }
}

proof fn lemma_last_line(head: Seq<char>, line: Seq<char>)
    requires
        head.len() > 0 ==> head.last() == '\n',
        line.len() > 0,
        is_line(line),
    ensures
        lines_of(head + line).len() > 0,
        lines_of(head + line).last() == line,
    decreases head.len(),
{
    let s = head + line;
    lemma_char_from(s, '\n', 0);
    if head.len() == 0 {
        assert(s =~= line);
        lemma_char_from_none(line, '\n');
    } else {
        assert(s[head.len() - 1] == '\n');
        let i = char_from(s, '\n', 0)->0;
        assert(0 <= i < head.len());
        let rest = head.skip(i + 1);
        assert(s.skip(i + 1) =~= rest + line);
        if rest.len() > 0 {
            assert(rest.last() == head.last());
        }
        lemma_last_line(rest, line);
        assert(lines_of(s).last() == lines_of(rest + line).last());
    }
}

/// A text that says nothing has no lines once the blanks are gone.
pub proof fn law_blank_text(s: Seq<char>)
    requires
        all_space(s),
    ensures
        trimmed(s) == Seq::<char>::empty(),
        lines_of(trimmed(s)) == Seq::<Seq<char>>::empty(),
{
    let none = Seq::<char>::empty();
    law_trim(s, none, none);
    assert(s + none + none =~= s);
    lemma_char_from_none(none, '\n');
}

// ---------------------------------------------------------------------------
// Pieces and words
// ---------------------------------------------------------------------------

/// Texts one after the other with a separator between each two.
pub open spec fn strung(parts: Seq<Seq<char>>, sep: Seq<char>) -> Seq<char>
    decreases parts.len(),
{
    if parts.len() == 0 {
        Seq::empty()
    } else if parts.len() == 1 {
        parts[0]
    } else {
        parts[0] + sep + strung(parts.skip(1), sep)
    }
}

/// Joining puts the separator between each two texts and nowhere else.
pub proof fn law_join(parts: Seq<Seq<char>>, sep: Seq<char>)
    ensures
        joined(parts, sep) == strung(parts, sep),
    decreases parts.len(),
{
    if parts.len() > 1 {
        let before = parts.drop_last();
        law_join(before, sep);
        law_join(parts.skip(1), sep);
        if parts.len() == 2 {
            assert(before.len() == 1 && before[0] == parts[0]);
            assert(parts.skip(1).len() == 1 && parts.skip(1)[0] == parts[1]);
        } else {
            assert(before.skip(1) =~= parts.skip(1).drop_last());
            law_join(before.skip(1), sep);
            assert(strung(before, sep) == parts[0] + sep + strung(before.skip(1), sep));
            assert(joined(parts.skip(1), sep) == joined(before.skip(1), sep) + sep + parts.last());
            assert(joined(parts, sep) =~= parts[0] + sep + (strung(before.skip(1), sep) + sep
                + parts.last()));
        }
    }
}

/// Pieces that hold no separator are read back, empty ones included.
pub proof fn law_pieces_are_read_back(parts: Seq<Seq<char>>, sep: char)
    requires
        parts.len() > 0,
        forall|i: int| 0 <= i < parts.len() ==> !(#[trigger] parts[i]).contains(sep),
    ensures
        pieces_of(strung(parts, seq![sep]), sep) == parts,
    decreases parts.len(),
{
    assert(!parts[0].contains(sep));
    if parts.len() == 1 {
        lemma_char_from_none(parts[0], sep);
        assert(pieces_of(parts[0], sep) =~= parts);
    } else {
        let rest = parts.skip(1);
        assert forall|i: int| 0 <= i < rest.len() implies !(#[trigger] rest[i]).contains(sep) by {
            assert(rest[i] == parts[i + 1]);
        }
        law_pieces_are_read_back(rest, sep);
        lemma_char_from_first(parts[0], sep, strung(rest, seq![sep]));
        assert(seq![parts[0]] + rest =~= parts);
    }
}

/// Words one after the other, each with what is behind it.
pub open spec fn spaced(words: Seq<(Seq<char>, Seq<char>)>) -> Seq<char>
    decreases words.len(),
{
    if words.len() == 0 {
        Seq::empty()
    } else {
        words[0].0 + words[0].1 + spaced(words.skip(1))
    }
}

/// Whether these are words with blanks between them: each but the last has some
/// behind it.
pub open spec fn are_words(words: Seq<(Seq<char>, Seq<char>)>) -> bool {
    forall|i: int|
        0 <= i < words.len() ==> {
            &&& (#[trigger] words[i]).0.len() > 0
            &&& no_space(words[i].0)
            &&& all_space(words[i].1)
            &&& i < words.len() - 1 ==> words[i].1.len() > 0
        }
}

/// The words alone.
pub open spec fn words_alone(words: Seq<(Seq<char>, Seq<char>)>) -> Seq<Seq<char>> {
    Seq::new(words.len(), |i: int| words[i].0)
}

pub(crate) proof fn lemma_first_word_is(word: Seq<char>, rest: Seq<char>)
    requires
        no_space(word),
        rest.len() == 0 || is_space(rest[0]),
    ensures
        first_word(word + rest) == word,
    decreases word.len(),
{
    let s = word + rest;
    if word.len() == 0 {
        assert(s =~= rest);
        assert(first_word(s) =~= word);
    } else {
        assert(s[0] == word[0]);
        assert(s.skip(1) =~= word.skip(1) + rest);
        assert forall|i: int| 0 <= i < word.skip(1).len() implies !is_space(
            #[trigger] word.skip(1)[i],
        ) by {
            assert(word.skip(1)[i] == word[i + 1]);
        }
        lemma_first_word_is(word.skip(1), rest);
        assert(seq![word[0]] + word.skip(1) =~= word);
    }
}

/// Words are read back, whatever blanks stand before, between and behind them.
pub proof fn law_words_are_read_back(lead: Seq<char>, words: Seq<(Seq<char>, Seq<char>)>)
    requires
        all_space(lead),
        are_words(words),
    ensures
        words_of(lead + spaced(words)) == words_alone(words),
    decreases words.len(),
{
    let s = lead + spaced(words);
    lemma_trimmed_start(lead, spaced(words));
    if words.len() == 0 {
        assert(trimmed_start(spaced(words)) =~= Seq::empty());
        assert(words_of(s) =~= words_alone(words));
    } else {
        let (word, gap) = words[0];
        let rest = words.skip(1);
        assert forall|i: int| 0 <= i < rest.len() implies {
            &&& (#[trigger] rest[i]).0.len() > 0
            &&& no_space(rest[i].0)
            &&& all_space(rest[i].1)
            &&& i < rest.len() - 1 ==> rest[i].1.len() > 0
        } by {
            assert(rest[i] == words[i + 1]);
        }
        let t = spaced(words);
        let tail = gap + spaced(rest);
        assert(t =~= word + tail);
        assert(no_space(word) && word.len() > 0 && all_space(gap));
        assert(t[0] == word[0]);
        assert(trimmed_start(t) == t);
        if rest.len() > 0 {
            assert(gap.len() > 0);
            assert(tail[0] == gap[0]);
        } else {
            assert(tail =~= gap);
        }
        lemma_first_word_is(word, tail);
        lemma_first_word(t);
        assert(t.skip(word.len() as int) =~= tail);
        law_words_are_read_back(gap, rest);
        assert(seq![word] + words_alone(rest) =~= words_alone(words));
    }
}

/// The first word of a text is the first, whatever blanks stand before it, and
/// a text of blanks has none.
pub proof fn law_first_word(lead: Seq<char>, words: Seq<(Seq<char>, Seq<char>)>)
    requires
        all_space(lead),
        are_words(words),
    ensures
        words.len() > 0 ==> leading_word(lead + spaced(words)) == words[0].0,
        leading_word(lead) == Seq::<char>::empty(),
{
    law_words_are_read_back(lead, words);
    let none = Seq::<(Seq<char>, Seq<char>)>::empty();
    law_words_are_read_back(lead, none);
    assert(lead + spaced(none) =~= lead);
    if words.len() > 0 {
        assert(words_alone(words)[0] == words[0].0);
    }
}

// ---------------------------------------------------------------------------
// Cutting
// ---------------------------------------------------------------------------

/// A text is cut at the first copy of a character, and only where it has one.
pub proof fn law_sides(left: Seq<char>, c: char, right: Seq<char>)
    requires
        !left.contains(c),
    ensures
        sides_of(left + seq![c] + right, c) == Some((left, right)),
        sides_of(left, c) is None,
{
    lemma_char_from_first(left, c, right);
    lemma_char_from_none(left, c);
}

pub(crate) proof fn lemma_last_char_none(s: Seq<char>, c: char)
    requires
        !s.contains(c),
    ensures
        last_char(s, c) is None,
    decreases s.len(),
{
    if s.len() > 0 {
        assert(s[s.len() - 1] == s.last());
        assert forall|i: int| 0 <= i < s.drop_last().len() implies s.drop_last()[i] != c by {
            assert(s[i] == s.drop_last()[i]);
        }
        lemma_last_char_none(s.drop_last(), c);
    }
}

/// A text is cut at the last copy of a character, and left whole where it has
/// none.
pub proof fn law_before_last(left: Seq<char>, c: char, right: Seq<char>)
    requires
        !right.contains(c),
    ensures
        before_last(left + seq![c] + right, c) == left,
        before_last(right, c) == right,
    decreases right.len(),
{
    lemma_last_char_none(right, c);
    lemma_last(left, c, right);
    assert((left + seq![c] + right).take(left.len() as int) =~= left);
}

proof fn lemma_last(left: Seq<char>, c: char, right: Seq<char>)
    requires
        !right.contains(c),
    ensures
        last_char(left + seq![c] + right, c) == Some(left.len() as int),
    decreases right.len(),
{
    let s = left + seq![c] + right;
    if right.len() == 0 {
        assert(s.last() == c);
    } else {
        assert(s.last() == right[right.len() - 1]);
        assert(s.drop_last() =~= left + seq![c] + right.drop_last());
        assert forall|i: int| 0 <= i < right.drop_last().len() implies right.drop_last()[i] != c by {
            assert(right[i] == right.drop_last()[i]);
        }
        lemma_last(left, c, right.drop_last());
    }
}

/// Whether a text is made of copies of one character, or of nothing.
pub open spec fn only(s: Seq<char>, c: char) -> bool {
    forall|i: int| 0 <= i < s.len() ==> #[trigger] s[i] == c
}

proof fn lemma_without_leading_only(lead: Seq<char>, s: Seq<char>, c: char)
    requires
        only(lead, c),
    ensures
        without_leading(lead + s, c) == without_leading(s, c),
    decreases lead.len(),
{
    if lead.len() == 0 {
        assert(lead + s =~= s);
    } else {
        assert((lead + s)[0] == lead[0]);
        assert((lead + s).skip(1) =~= lead.skip(1) + s);
        lemma_without_leading_only(lead.skip(1), s, c);
    }
}

proof fn lemma_without_trailing_only(s: Seq<char>, trail: Seq<char>, c: char)
    requires
        only(trail, c),
    ensures
        without_trailing(s + trail, c) == without_trailing(s, c),
    decreases trail.len(),
{
    if trail.len() == 0 {
        assert(s + trail =~= s);
    } else {
        assert((s + trail).last() == trail[trail.len() - 1]);
        assert((s + trail).drop_last() =~= s + trail.drop_last());
        lemma_without_trailing_only(s, trail.drop_last(), c);
    }
}

/// The copies of a character around a text are taken away, and nothing else is.
pub proof fn law_unwrap(lead: Seq<char>, s: Seq<char>, trail: Seq<char>, c: char)
    requires
        only(lead, c),
        s.len() > 0,
        s[0] != c,
        s.last() != c,
        only(trail, c),
    ensures
        unwrapped(lead + s + trail, c) == s,
{
    assert(lead + s + trail =~= lead + (s + trail));
    lemma_without_leading_only(lead, s + trail, c);
    assert((s + trail)[0] == s[0]);
    lemma_without_trailing_only(s, trail, c);
}

/// A clipped text is the beginning of the text, as much of it as fits.
pub proof fn law_clip(s: Seq<char>, n: int)
    requires
        0 <= n,
    ensures
        clipped(s, n).is_prefix_of(s),
        clipped(s, n).len() == if s.len() < n {
            s.len() as int
        } else {
            n
        },
{
    if s.len() <= n {
        assert(s.subrange(0, s.len() as int) =~= s);
    } else {
        assert(s.subrange(0, n) =~= s.take(n));
    }
}

// ---------------------------------------------------------------------------
// Replacing
// ---------------------------------------------------------------------------

/// The first copy is replaced, what stands before it is kept, and the rest is
/// gone on with.
pub proof fn law_replace_first(
    before: Seq<char>,
    from: Seq<char>,
    after: Seq<char>,
    to: Seq<char>,
)
    requires
        from.len() > 0,
        forall|i: int| 0 <= i < before.len() ==> !occurs_at(before + from + after, from, i),
    ensures
        replaced(before + from + after, from, to) == before + to + replaced(after, from, to),
    decreases before.len(),
{
    let s = before + from + after;
    if before.len() == 0 {
        assert(s.subrange(0, from.len() as int) =~= from);
        assert(s.skip(from.len() as int) =~= after);
        assert(before + to =~= to);
    } else {
        let rest = before.skip(1);
        assert(!occurs_at(s, from, 0));
        assert(s.skip(1) =~= rest + from + after);
        assert forall|i: int| 0 <= i < rest.len() implies !occurs_at(rest + from + after, from, i) by {
            assert(!occurs_at(s, from, i + 1));
            assert(s.subrange(i + 1, i + 1 + from.len()) =~= s.skip(1).subrange(
                i,
                i + from.len(),
            ));
        }
        law_replace_first(rest, from, after, to);
        assert(seq![s[0]] + (rest + to + replaced(after, from, to)) =~= before + to + replaced(
            after,
            from,
            to,
        ));
    }
}

/// Where there is nothing to replace, nothing changes.
pub proof fn law_replace_nothing(s: Seq<char>, from: Seq<char>, to: Seq<char>)
    requires
        from.len() > 0,
        !holds(s, from),
    ensures
        replaced(s, from, to) == s,
    decreases s.len(),
{
    law_search(s, from);
    if s.len() > 0 {
        assert(!occurs_at(s, from, 0));
        law_search(s.skip(1), from);
        assert(!has_text(s.skip(1), from)) by {
            if has_text(s.skip(1), from) {
                let i = choose|i: int| occurs_at(s.skip(1), from, i);
                assert(s.subrange(i + 1, i + 1 + from.len()) =~= s.skip(1).subrange(
                    i,
                    i + from.len(),
                ));
                assert(occurs_at(s, from, i + 1));
            }
        }
        law_replace_nothing(s.skip(1), from, to);
        assert(seq![s[0]] + s.skip(1) =~= s);
    }
}

// ---------------------------------------------------------------------------
// Numbers
// ---------------------------------------------------------------------------

/// The decimal digits.
pub open spec fn digits() -> Seq<char> {
    seq!['0', '1', '2', '3', '4', '5', '6', '7', '8', '9']
}

/// A number is written digit by digit, the last one last, and a negative one
/// with a sign before it.
pub proof fn law_decimal(n: nat, d: int)
    requires
        0 <= d < 10,
    ensures
        decimal_of(d) == seq![digits()[d]],
        n > 0 ==> decimal_of(10 * n + d) == decimal_of(n as int).push(digits()[d]),
        n > 0 ==> decimal_of(-(n as int)) == seq!['-'] + decimal_of(n as int),
{
    assert(digit_char(d) == digits()[d]);
    if n > 0 {
        let m = (10 * n + d) as nat;
        assert(m / 10 == n && m % 10 == d);
        assert(decimal_of_nat(m) == decimal_of_nat(n).push(digit_char(d)));
    }
}

/// One more digit behind a number that is read multiplies it by ten and adds the
/// digit, as far as it fits in 32 bits; a plus sign before it changes nothing.
pub proof fn law_numbers_are_read(s: Seq<char>, d: int)
    requires
        is_number(s),
        0 <= d < 10,
    ensures
        u32_of(seq![digits()[d]]) == Some(d as u32),
        u32_of(seq!['+'] + s) == u32_of(s),
        u32_of(s.push(digits()[d])) == (match u32_of(s) {
            Some(v) if 10 * v + d <= 0xffff_ffff => Some((10 * v + d) as u32),
            _ => None,
        }),
{
    let c = digits()[d];
    assert(is_digit(c) && digit_value(c) == d);
    let one = seq![c];
    assert(unsigned_part(one) =~= one);
    assert(one.drop_last() =~= Seq::empty());
    assert(digits_value(one) == digits_value(Seq::empty()) * 10 + d);
    assert((seq!['+'] + s).skip(1) =~= s);
    assert(is_digit(s[0]));
    assert(unsigned_part(s) == s);
    let more = s.push(c);
    assert(more[0] == s[0]);
    assert(unsigned_part(more) == more);
    assert(more.drop_last() =~= s);
    assert(is_number(more)) by {
        assert forall|i: int| 0 <= i < more.len() implies is_digit(#[trigger] more[i]) by {
            if i < s.len() {
                assert(more[i] == s[i]);
            }
        }
    }
    lemma_digits_positive(s);
}

proof fn lemma_digits_positive(s: Seq<char>)
    requires
        forall|i: int| 0 <= i < s.len() ==> is_digit(#[trigger] s[i]),
    ensures
        digits_value(s) >= 0,
    decreases s.len(),
{
    if s.len() > 0 {
        assert(is_digit(s[s.len() - 1]));
        assert forall|i: int| 0 <= i < s.drop_last().len() implies is_digit(
            #[trigger] s.drop_last()[i],
        ) by {
            assert(s[i] == s.drop_last()[i]);
        }
        lemma_digits_positive(s.drop_last());
    }
}

/// What holds anything but digits behind the sign is no number, and neither is
/// nothing.
pub proof fn law_others_are_no_numbers(s: Seq<char>, i: int)
    requires
        0 <= i < s.len(),
        !digits().contains(s[i]),
        i > 0 || s[0] != '+',
    ensures
        u32_of(s) is None,
        u32_of(Seq::empty()) is None,
        u32_of(seq!['+']) is None,
{
    let body = unsigned_part(s);
    let at = if s[0] == '+' {
        i - 1
    } else {
        i
    };
    assert(body[at] == s[i]);
    if is_digit(s[i]) {
        assert(digits()[s[i] as int - '0' as int] == s[i]);
    }
    assert(unsigned_part(seq!['+']).len() == 0);
}

// ---------------------------------------------------------------------------
// Case and order
// ---------------------------------------------------------------------------

/// The letters `A` to `Z`.
pub open spec fn capitals() -> Seq<char> {
    seq![
        'A', 'B', 'C', 'D', 'E', 'F', 'G', 'H', 'I', 'J', 'K', 'L', 'M', 'N', 'O', 'P', 'Q', 'R',
        'S', 'T', 'U', 'V', 'W', 'X', 'Y', 'Z',
    ]
}

/// The letters `a` to `z`.
pub open spec fn smalls() -> Seq<char> {
    seq![
        'a', 'b', 'c', 'd', 'e', 'f', 'g', 'h', 'i', 'j', 'k', 'l', 'm', 'n', 'o', 'p', 'q', 'r',
        's', 't', 'u', 'v', 'w', 'x', 'y', 'z',
    ]
}

/// In an ASCII text each letter is put in the other case and nothing else is
/// touched.
pub proof fn law_case(s: Seq<char>, i: int)
    requires
        is_ascii_chars(s),
        0 <= i < s.len(),
    ensures
        lower_text(s).len() == s.len(),
        upper_text(s).len() == s.len(),
        forall|k: int|
            0 <= k < 26 && s[i] == #[trigger] capitals()[k] ==> lower_text(s)[i] == smalls()[k],
        forall|k: int|
            0 <= k < 26 && s[i] == #[trigger] smalls()[k] ==> upper_text(s)[i] == capitals()[k],
        !capitals().contains(s[i]) ==> lower_text(s)[i] == s[i],
        !smalls().contains(s[i]) ==> upper_text(s)[i] == s[i],
{
    let c = s[i];
    assert forall|k: int| 0 <= k < 26 implies #[trigger] capitals()[k] as int == 65 + k by {}
    assert forall|k: int| 0 <= k < 26 implies #[trigger] smalls()[k] as int == 97 + k by {}
    if 'A' <= c && c <= 'Z' {
        assert(capitals()[c as int - 65] == c);
    }
    if 'a' <= c && c <= 'z' {
        assert(smalls()[c as int - 97] == c);
    }
}

/// Two texts are the same but for case where they agree in every place, or
/// differ there by the case of one letter.
pub proof fn law_same_but_case(a: Seq<char>, b: Seq<char>)
    ensures
        same_but_case(a, b) <==> a.len() == b.len() && forall|i: int|
            0 <= i < a.len() ==> (#[trigger] a[i] == b[i] || exists|k: int|
                0 <= k < 26 && (a[i] == #[trigger] capitals()[k] && b[i] == smalls()[k] || a[i]
                    == smalls()[k] && b[i] == capitals()[k])),
{
    assert forall|k: int| 0 <= k < 26 implies #[trigger] capitals()[k] as int == 65 + k
        && smalls()[k] as int == 97 + k by {}
    if a.len() == b.len() {
        assert forall|i: int| 0 <= i < a.len() && ascii_lower(#[trigger] a[i]) == ascii_lower(
            b[i],
        ) && a[i] != b[i] implies exists|k: int|
            0 <= k < 26 && (a[i] == #[trigger] capitals()[k] && b[i] == smalls()[k] || a[i]
                == smalls()[k] && b[i] == capitals()[k]) by {
            let x = a[i] as int;
            let y = b[i] as int;
            let k = if 'A' <= a[i] && a[i] <= 'Z' {
                x - 65
            } else {
                y - 65
            };
            assert(capitals()[k] as int == 65 + k);
        }
        assert forall|i: int, k: int|
            0 <= i < a.len() && 0 <= k < 26 && (a[i] == #[trigger] capitals()[k] && b[i]
                == smalls()[k] || a[i] == smalls()[k] && b[i] == capitals()[k]) implies ascii_lower(
            #[trigger] a[i],
        ) == ascii_lower(b[i]) by {}
    }
}

/// The ASCII characters that continue a word are the letters, the digits and no
/// others.
pub proof fn law_letters_and_digits(c: char)
    requires
        c <= '\x7f',
    ensures
        letter_or_digit(c) <==> capitals().contains(c) || smalls().contains(c)
            || digits().contains(c),
{
    assert forall|k: int| 0 <= k < 26 implies #[trigger] capitals()[k] as int == 65 + k by {}
    assert forall|k: int| 0 <= k < 26 implies #[trigger] smalls()[k] as int == 97 + k by {}
    assert forall|k: int| 0 <= k < 10 implies #[trigger] digits()[k] as int == 48 + k by {}
    if 'A' <= c && c <= 'Z' {
        assert(capitals()[c as int - 65] == c);
    }
    if 'a' <= c && c <= 'z' {
        assert(smalls()[c as int - 97] == c);
    }
    if '0' <= c && c <= '9' {
        assert(digits()[c as int - 48] == c);
    }
}

/// Texts are ordered by the first character in which they differ, and a text
/// comes before every longer one that begins with it.
pub proof fn law_order(
    same: Seq<char>,
    a: char,
    rest: Seq<char>,
    b: char,
    other: Seq<char>,
)
    requires
        a < b,
    ensures
        not_after(same + seq![a] + rest, same + seq![b] + other),
        !not_after(same + seq![b] + other, same + seq![a] + rest),
        not_after(same, same + seq![a] + rest),
        !not_after(same + seq![a] + rest, same),
    decreases same.len(),
{
    let x = same + seq![a] + rest;
    let y = same + seq![b] + other;
    if same.len() > 0 {
        let tail = same.skip(1);
        assert(x.skip(1) =~= tail + seq![a] + rest);
        assert(y.skip(1) =~= tail + seq![b] + other);
        assert(x[0] == same[0] && y[0] == same[0]);
        law_order(tail, a, rest, b, other);
    } else {
        assert(x[0] == a && y[0] == b);
    }
}

} // verus!
