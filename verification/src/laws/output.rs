//! What holds of command output as it is read.

use vstd::prelude::*;
use vstd::utf8::*;

use crate::host::{utf8_output, RawOutputView};
use crate::unicode::{interrupted, mended, riddled, strays_apart, utf8_text};

verus! {

// ---------------------------------------------------------------------------
// Strays are told from text in one way only
// ---------------------------------------------------------------------------

proof fn lemma_rest_apart(parts: Seq<(Seq<u8>, u8)>, last: Seq<u8>)
    requires
        parts.len() > 0,
        strays_apart(parts, last),
    ensures
        strays_apart(parts.skip(1), last),
{
    assert forall|i: int| 0 <= i < parts.skip(1).len() implies {
        &&& valid_utf8((#[trigger] parts.skip(1)[i]).0)
        &&& parts.skip(1)[i].1 >= 0x80
        &&& i > 0 ==> parts.skip(1)[i].0.len() > 0
    } by {
        assert(parts.skip(1)[i] == parts[i + 1]);
    }
}

/// No text at the start of the bytes reaches beyond the first stray.
proof fn lemma_stray_ends_text(parts: Seq<(Seq<u8>, u8)>, last: Seq<u8>, text: Seq<u8>)
    requires
        parts.len() > 0,
        strays_apart(parts, last),
        valid_utf8(text),
        text.is_prefix_of(riddled(parts, last)),
    ensures
        text.len() <= parts[0].0.len(),
{
    let bytes = riddled(parts, last);
    let first = parts[0].0;
    let n = first.len() as int;
    let rest = riddled(parts.skip(1), last);
    assert(bytes == interrupted(first, parts[0].1, rest));
    if text.len() > n {
        assert(text.subrange(0, n) =~= first);
        let tail = text.subrange(n, text.len() as int);
        if !valid_utf8(tail) {
            partial_valid_partial_invalid_utf8(text, n);
        }
        assert(tail[0] == bytes[n]);
        assert(tail[0] == parts[0].1);
        assert(is_continuation_byte(tail[1]));
        assert(tail[1] == bytes[n + 1]);
        assert(tail[1] == rest[0]);
        if parts.len() == 1 {
            assert(rest == last);
            assert(valid_first_scalar(last));
        } else {
            let next = parts.skip(1)[0];
            assert(next == parts[1]);
            assert(rest == interrupted(next.0, next.1, riddled(parts.skip(1).skip(1), last)));
            assert(rest[0] == next.0[0]);
            assert(valid_first_scalar(next.0));
        }
    }
}

proof fn lemma_told_apart(
    parts: Seq<(Seq<u8>, u8)>,
    last: Seq<u8>,
    parts2: Seq<(Seq<u8>, u8)>,
    last2: Seq<u8>,
)
    requires
        strays_apart(parts, last),
        strays_apart(parts2, last2),
        riddled(parts, last) == riddled(parts2, last2),
    ensures
        mended(parts, last) == mended(parts2, last2),
    decreases parts.len(),
{
    let bytes = riddled(parts, last);
    if parts.len() == 0 {
        if parts2.len() > 0 {
            lemma_stray_ends_text(parts2, last2, last);
        }
    } else if parts2.len() == 0 {
        lemma_stray_ends_text(parts, last, last2);
    } else {
        let first = parts[0].0;
        let first2 = parts2[0].0;
        let rest = riddled(parts.skip(1), last);
        let rest2 = riddled(parts2.skip(1), last2);
        assert(bytes == interrupted(first, parts[0].1, rest));
        assert(bytes == interrupted(first2, parts2[0].1, rest2));
        lemma_stray_ends_text(parts, last, first2);
        lemma_stray_ends_text(parts2, last2, first);
        let n = first.len() as int;
        assert(first =~= bytes.subrange(0, n));
        assert(first2 =~= bytes.subrange(0, n));
        assert(rest =~= bytes.subrange(n + 1, bytes.len() as int));
        assert(rest2 =~= bytes.subrange(n + 1, bytes.len() as int));
        lemma_rest_apart(parts, last);
        lemma_rest_apart(parts2, last2);
        lemma_told_apart(parts.skip(1), last, parts2.skip(1), last2);
    }
}

// ---------------------------------------------------------------------------
// The laws
// ---------------------------------------------------------------------------

/// Stray bytes take nothing with them: each becomes U+FFFD, and the text around
/// them is read as it stands.
pub proof fn law_stray_bytes_take_nothing_with_them(parts: Seq<(Seq<u8>, u8)>, last: Seq<u8>)
    requires
        strays_apart(parts, last),
    ensures
        utf8_text(riddled(parts, last)) == mended(parts, last),
{
    let bytes = riddled(parts, last);
    if valid_utf8(bytes) {
        let none = Seq::<(Seq<u8>, u8)>::empty();
        assert(riddled(none, bytes) == bytes);
        lemma_told_apart(none, bytes, parts, last);
    } else {
        let (parts2, last2) = choose|parts2: Seq<(Seq<u8>, u8)>, last2: Seq<u8>|
            bytes == #[trigger] riddled(parts2, last2) && strays_apart(parts2, last2);
        lemma_told_apart(parts, last, parts2, last2);
    }
}

/// A single stray byte in what a command printed leaves the rest of it alone, on
/// either stream, and the exit code as well.
pub proof fn law_stray_byte_leaves_output(
    raw: RawOutputView,
    before: Seq<u8>,
    stray: u8,
    after: Seq<u8>,
)
    requires
        valid_utf8(before),
        stray >= 0x80,
        valid_utf8(after),
    ensures
        utf8_output(raw).rc == raw.rc,
        raw.stdout == interrupted(before, stray, after) ==> utf8_output(raw).stdout == decode_utf8(
            before,
        ) + seq!['\u{fffd}'] + decode_utf8(after),
        raw.stderr == interrupted(before, stray, after) ==> utf8_output(raw).stderr == decode_utf8(
            before,
        ) + seq!['\u{fffd}'] + decode_utf8(after),
{
    let parts = seq![(before, stray)];
    assert(parts.skip(1) =~= Seq::empty());
    assert(riddled(parts.skip(1), after) == after);
    assert(mended(parts.skip(1), after) == decode_utf8(after));
    assert(riddled(parts, after) == interrupted(before, stray, after));
    law_stray_bytes_take_nothing_with_them(parts, after);
}

} // verus!
