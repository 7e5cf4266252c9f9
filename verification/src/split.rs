//! Splitting text into lines, words and pieces, and putting pieces together.

use vstd::prelude::*;
use vstd::string::*;

use crate::text::{
    begins_with, char_from, char_position, chars_of, is_space, is_whitespace, lemma_char_from,
    lemma_texts_push, matches_at, occurs_at, same_text, skip_spaces, string_of, texts,
    trimmed_start,
};

verus! {

broadcast use lemma_texts_push;

// ---------------------------------------------------------------------------
// Lines
// ---------------------------------------------------------------------------

/// `s` without one carriage return at its end.
pub open spec fn without_return(s: Seq<char>) -> Seq<char> {
    if s.len() > 0 && s.last() == '\r' {
        s.drop_last()
    } else {
        s
    }
}

/// The lines of `s`: each ends at `\n` or `\r\n`, the last one also at the end
/// of the text.
pub open spec fn lines_of(s: Seq<char>) -> Seq<Seq<char>>
    decreases s.len(),
{
    proof {
        lemma_char_from(s, '\n', 0);
    }
    match char_from(s, '\n', 0) {
        Some(i) => seq![without_return(s.take(i))] + lines_of(s.skip(i + 1)),
        None => if s.len() == 0 {
            Seq::empty()
        } else {
            seq![s]
        },
    }
}

/// Where a character first stands at or after `from`, seen from `from` itself.
proof fn lemma_char_from_skip(s: Seq<char>, c: char, from: int, i: int)
    requires
        0 <= from <= i,
        from <= s.len(),
    ensures
        char_from(s.skip(from), c, i - from) == (match char_from(s, c, i) {
            Some(k) => Some(k - from),
            None => None,
        }),
    decreases s.len() - i,
{
    if i < s.len() && s[i] != c {
        lemma_char_from_skip(s, c, from, i + 1);
    }
}

/// The lines of a text, as `str::lines` gives them.
pub fn lines(s: &str) -> (r: Vec<String>)
    ensures
        texts(r@) == lines_of(s@),
{
    let chars = chars_of(s);
    let len: usize = chars.len();
    let mut out: Vec<String> = Vec::new();
    let mut start: usize = 0;
    assert(s@.skip(0) =~= s@);
    assert(texts(out@) + lines_of(s@) =~= lines_of(s@));
    loop
        invariant
            chars@ == s@,
            len == s@.len(),
            start <= len,
            texts(out@) + lines_of(s@.skip(start as int)) == lines_of(s@),
        decreases len - start,
    {
        let ghost rest = s@.skip(start as int);
        proof {
            lemma_char_from_skip(s@, '\n', start as int, start as int);
        }
        match char_position(&chars, '\n', start) {
            Some(i) => {
                let end: usize = if i > start && chars[i - 1] == '\r' {
                    i - 1
                } else {
                    i
                };
                let line = string_of(&chars, start, end);
                assert(line@ =~= without_return(rest.take(i - start)));
                assert(rest.skip(i - start + 1) =~= s@.skip(i + 1));
                let ghost before = texts(out@);
                out.push(line);
                assert(before + (seq![line@] + lines_of(s@.skip(i + 1))) =~= texts(out@)
                    + lines_of(s@.skip(i + 1)));
                start = i + 1;
            },
            None => {
                if start < len {
                    let line = string_of(&chars, start, len);
                    assert(line@ =~= rest);
                    let ghost before = texts(out@);
                    out.push(line);
                    assert(before + seq![line@] =~= texts(out@));
                } else {
                    assert(texts(out@) + Seq::<Seq<char>>::empty() =~= texts(out@));
                }
                return out;
            },
        }
    }
}

/// The first line of a text, or nothing.
pub open spec fn first_line(s: Seq<char>) -> Seq<char> {
    if lines_of(s).len() > 0 {
        lines_of(s)[0]
    } else {
        Seq::empty()
    }
}

/// The first line of a text, or nothing.
pub fn first_line_of(s: &str) -> (r: String)
    ensures
        r@ == first_line(s@),
{
    let found = lines(s);
    if found.len() > 0 {
        assert(texts(found@)[0] == found@[0]@);
        found[0].clone()
    } else {
        String::new()
    }
}

/// Whether one of the texts is this one.
pub fn has_item(items: &[String], item: &str) -> (r: bool)
    ensures
        r == texts(items@).contains(item@),
{
    let n: usize = items.len();
    let mut i: usize = 0;
    while i < n
        invariant
            n == items@.len(),
            i <= n,
            forall|j: int| 0 <= j < i ==> texts(items@)[j] != item@,
        decreases n - i,
    {
        if same_text(items[i].as_str(), item) {
            assert(texts(items@)[i as int] == item@);
            return true;
        }
        i += 1;
    }
    false
}

// ---------------------------------------------------------------------------
// Words
// ---------------------------------------------------------------------------

/// The characters of `s` before its first white space.
pub open spec fn first_word(s: Seq<char>) -> Seq<char>
    decreases s.len(),
{
    if s.len() == 0 || is_space(s[0]) {
        Seq::empty()
    } else {
        seq![s[0]] + first_word(s.skip(1))
    }
}

pub proof fn lemma_first_word(s: Seq<char>)
    ensures
        first_word(s).len() <= s.len(),
        s.len() > 0 && !is_space(s[0]) ==> first_word(s).len() > 0,
    decreases s.len(),
{
    if s.len() > 0 && !is_space(s[0]) {
        lemma_first_word(s.skip(1));
    }
}

pub proof fn lemma_trimmed_start(s: Seq<char>)
    ensures
        trimmed_start(s).len() <= s.len(),
        trimmed_start(s).len() > 0 ==> !is_space(trimmed_start(s)[0]),
    decreases s.len(),
{
    if s.len() > 0 && is_space(s[0]) {
        lemma_trimmed_start(s.skip(1));
    }
}

/// The runs of characters that white space separates.
pub open spec fn words_of(s: Seq<char>) -> Seq<Seq<char>>
    decreases s.len(),
{
    let t = trimmed_start(s);
    if t.len() == 0 {
        Seq::empty()
    } else {
        proof {
            lemma_trimmed_start(s);
            lemma_first_word(t);
        }
        seq![first_word(t)] + words_of(t.skip(first_word(t).len() as int))
    }
}

/// The position after the word that begins at `from`.
fn word_end(s: &Vec<char>, from: usize) -> (r: usize)
    requires
        from <= s@.len(),
    ensures
        from <= r <= s@.len(),
        from < s@.len() && !is_space(s@[from as int]) ==> from < r,
        first_word(s@.skip(from as int)) == s@.subrange(from as int, r as int),
{
    let len: usize = s.len();
    let mut i: usize = from;
    assert(s@.subrange(from as int, from as int) + first_word(s@.skip(from as int)) =~= first_word(
        s@.skip(from as int),
    ));
    while i < len && !is_whitespace(s[i])
        invariant
            len == s@.len(),
            from <= i <= len,
            first_word(s@.skip(from as int)) == s@.subrange(from as int, i as int) + first_word(
                s@.skip(i as int),
            ),
            i == from ==> from <= len,
        decreases len - i,
    {
        assert(s@.skip(i as int).skip(1) =~= s@.skip(i + 1));
        assert(s@.subrange(from as int, i as int) + (seq![s@[i as int]] + first_word(
            s@.skip(i + 1),
        )) =~= s@.subrange(from as int, i + 1) + first_word(s@.skip(i + 1)));
        i += 1;
    }
    assert(s@.subrange(from as int, i as int) + Seq::<char>::empty() =~= s@.subrange(
        from as int,
        i as int,
    ));
    i
}

/// The words of a text, as `str::split_whitespace` gives them.
pub fn words(s: &str) -> (r: Vec<String>)
    ensures
        texts(r@) == words_of(s@),
{
    let chars = chars_of(s);
    let len: usize = chars.len();
    let mut out: Vec<String> = Vec::new();
    let mut at: usize = 0;
    assert(s@.skip(0) =~= s@);
    assert(texts(out@) + words_of(s@) =~= words_of(s@));
    loop
        invariant
            chars@ == s@,
            len == s@.len(),
            at <= len,
            texts(out@) + words_of(s@.skip(at as int)) == words_of(s@),
        decreases len - at,
    {
        let start: usize = skip_spaces(&chars, at);
        if start == len {
            assert(texts(out@) + Seq::<Seq<char>>::empty() =~= texts(out@));
            return out;
        }
        let end: usize = word_end(&chars, start);
        let word = string_of(&chars, start, end);
        assert(s@.skip(start as int).skip(end - start) =~= s@.skip(end as int));
        let ghost before = texts(out@);
        out.push(word);
        assert(before + (seq![word@] + words_of(s@.skip(end as int))) =~= texts(out@) + words_of(
            s@.skip(end as int),
        ));
        at = end;
    }
}

/// The first word of a line, or nothing.
pub open spec fn leading_word(line: Seq<char>) -> Seq<char> {
    if words_of(line).len() > 0 {
        words_of(line)[0]
    } else {
        Seq::empty()
    }
}

/// The first word of a line, or nothing.
pub fn first_word_of(line: &str) -> (r: String)
    ensures
        r@ == leading_word(line@),
{
    let found = words(line);
    if found.len() > 0 {
        assert(texts(found@)[0] == found@[0]@);
        found[0].clone()
    } else {
        String::new()
    }
}

// ---------------------------------------------------------------------------
// Pieces
// ---------------------------------------------------------------------------

/// The pieces of `s` between the copies of `c`, empty ones included.
pub open spec fn pieces_of(s: Seq<char>, c: char) -> Seq<Seq<char>>
    decreases s.len(),
{
    proof {
        lemma_char_from(s, c, 0);
    }
    match char_from(s, c, 0) {
        Some(i) => seq![s.take(i)] + pieces_of(s.skip(i + 1), c),
        None => seq![s],
    }
}

/// Splits a text at every `c`, as `str::split` does.
pub fn split(s: &str, c: char) -> (r: Vec<String>)
    ensures
        texts(r@) == pieces_of(s@, c),
        r@.len() > 0,
{
    let chars = chars_of(s);
    let len: usize = chars.len();
    let mut out: Vec<String> = Vec::new();
    let mut start: usize = 0;
    assert(s@.skip(0) =~= s@);
    assert(texts(out@) + pieces_of(s@, c) =~= pieces_of(s@, c));
    loop
        invariant
            chars@ == s@,
            len == s@.len(),
            start <= len,
            texts(out@) + pieces_of(s@.skip(start as int), c) == pieces_of(s@, c),
        decreases len - start,
    {
        let ghost rest = s@.skip(start as int);
        proof {
            lemma_char_from_skip(s@, c, start as int, start as int);
        }
        let ghost before = texts(out@);
        match char_position(&chars, c, start) {
            Some(i) => {
                let piece = string_of(&chars, start, i);
                assert(piece@ =~= rest.take(i - start));
                assert(rest.skip(i - start + 1) =~= s@.skip(i + 1));
                out.push(piece);
                assert(before + (seq![piece@] + pieces_of(s@.skip(i + 1), c)) =~= texts(out@)
                    + pieces_of(s@.skip(i + 1), c));
                start = i + 1;
            },
            None => {
                let piece = string_of(&chars, start, len);
                assert(piece@ =~= rest);
                out.push(piece);
                assert(before + seq![piece@] =~= texts(out@));
                return out;
            },
        }
    }
}

// ---------------------------------------------------------------------------
// Replacing and joining
// ---------------------------------------------------------------------------

/// `s` with every occurrence of `from`, taken from the left and without
/// overlap, replaced by `to`.
pub open spec fn replaced(s: Seq<char>, from: Seq<char>, to: Seq<char>) -> Seq<char>
    decreases s.len(),
{
    if from.len() == 0 || s.len() == 0 {
        s
    } else if begins_with(s, from) {
        to + replaced(s.skip(from.len() as int), from, to)
    } else {
        seq![s[0]] + replaced(s.skip(1), from, to)
    }
}

/// Replaces every occurrence of a non-empty `from`, as `str::replace` does.
pub fn replace(s: &str, from: &str, to: &str) -> (r: String)
    requires
        from@.len() > 0,
    ensures
        r@ == replaced(s@, from@, to@),
{
    let chars = chars_of(s);
    let wanted = chars_of(from);
    let len: usize = chars.len();
    let n: usize = wanted.len();
    let mut out = String::new();
    let mut i: usize = 0;
    assert(s@.skip(0) =~= s@);
    assert(out@ + replaced(s@, from@, to@) =~= replaced(s@, from@, to@));
    while i < len
        invariant
            chars@ == s@,
            wanted@ == from@,
            len == s@.len(),
            n == from@.len(),
            n > 0,
            i <= len,
            out@ + replaced(s@.skip(i as int), from@, to@) == replaced(s@, from@, to@),
        decreases len - i,
    {
        let ghost rest = s@.skip(i as int);
        let ghost before = out@;
        if n <= len - i && matches_at(&chars, &wanted, i) {
            assert(rest.subrange(0, n as int) =~= s@.subrange(i as int, i + n));
            assert(begins_with(rest, from@));
            assert(rest.skip(n as int) =~= s@.skip(i + n));
            out.append(to);
            assert(before + (to@ + replaced(s@.skip(i + n), from@, to@)) =~= out@ + replaced(
                s@.skip(i + n),
                from@,
                to@,
            ));
            i += n;
        } else {
            assert(!begins_with(rest, from@)) by {
                if begins_with(rest, from@) {
                    assert(rest.subrange(0, n as int) =~= s@.subrange(i as int, i + n));
                    assert(occurs_at(s@, from@, i as int));
                }
            }
            assert(rest.skip(1) =~= s@.skip(i + 1));
            out.push(chars[i]);
            assert(before + (seq![s@[i as int]] + replaced(s@.skip(i + 1), from@, to@)) =~= out@
                + replaced(s@.skip(i + 1), from@, to@));
            i += 1;
        }
    }
    assert(out@ + Seq::<char>::empty() =~= out@);
    assert(s@.skip(len as int) =~= Seq::<char>::empty());
    out
}

/// `parts` one after the other with `sep` between them.
pub open spec fn joined(parts: Seq<Seq<char>>, sep: Seq<char>) -> Seq<char>
    decreases parts.len(),
{
    if parts.len() == 0 {
        Seq::empty()
    } else if parts.len() == 1 {
        parts[0]
    } else {
        joined(parts.drop_last(), sep) + sep + parts.last()
    }
}

/// Joins strings with a separator between them.
pub fn join(parts: &[String], sep: &str) -> (r: String)
    ensures
        r@ == joined(texts(parts@), sep@),
{
    let n: usize = parts.len();
    let mut out = String::new();
    let mut i: usize = 0;
    assert(texts(parts@).take(0) =~= Seq::empty());
    while i < n
        invariant
            n == parts@.len(),
            i <= n,
            out@ == joined(texts(parts@).take(i as int), sep@),
        decreases n - i,
    {
        let ghost next = texts(parts@).take(i + 1);
        assert(next.drop_last() =~= texts(parts@).take(i as int));
        if i > 0 {
            out.append(sep);
        }
        out.append(parts[i].as_str());
        assert(i == 0 ==> out@ =~= parts@[0]@);
        i += 1;
    }
    assert(texts(parts@).take(n as int) =~= texts(parts@));
    out
}

/// `a` followed by `b`.
pub fn concat(a: &str, b: &str) -> (r: String)
    ensures
        r@ == a@ + b@,
{
    let mut out = a.to_owned();
    out.append(b);
    out
}

/// `a`, `b` and `c` one after the other.
pub fn concat3(a: &str, b: &str, c: &str) -> (r: String)
    ensures
        r@ == a@ + b@ + c@,
{
    let mut out = a.to_owned();
    out.append(b);
    out.append(c);
    out
}

} // verus!
