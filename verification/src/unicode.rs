//! The parts of Unicode that the standard library decides.

use vstd::prelude::*;
use vstd::string::*;
use vstd::utf8::*;

use crate::text::ascii_lower;

verus! {

/// What `str::to_lowercase` makes of a text.
pub uninterp spec fn lowercase(s: Seq<char>) -> Seq<char>;

/// What `str::to_uppercase` makes of a text.
pub uninterp spec fn uppercase(s: Seq<char>) -> Seq<char>;

/// What `char::is_alphanumeric` says of a character.
pub uninterp spec fn alphanumeric(c: char) -> bool;

/// What `String::from_utf8_lossy` makes of a byte sequence.
pub uninterp spec fn lossy_text(bytes: Seq<u8>) -> Seq<char>;

/// An ASCII letter in upper case; any other character as it is.
pub open spec fn ascii_upper(c: char) -> char {
    if 'a' <= c && c <= 'z' {
        ((c as u8) - 32) as u8 as char
    } else {
        c
    }
}

/// Whether an ASCII character is a letter or a digit.
pub open spec fn ascii_alphanumeric(c: char) -> bool {
    ||| '0' <= c && c <= '9'
    ||| 'A' <= c && c <= 'Z'
    ||| 'a' <= c && c <= 'z'
}

/// `str::to_lowercase`. The result is a function of the text alone; an ASCII
/// text has its letters `A` to `Z` replaced by `a` to `z` and nothing else
/// changed. What the Unicode tables say of other characters is left unsaid.
#[verifier::external_body]
pub(crate) fn to_lowercase(s: &str) -> (r: String)
    ensures
        r@ == lowercase(s@),
        is_ascii_chars(s@) ==> r@ == s@.map_values(|c: char| ascii_lower(c)),
{
    s.to_lowercase()
}

/// `str::to_uppercase`. The result is a function of the text alone; an ASCII
/// text has its letters `a` to `z` replaced by `A` to `Z` and nothing else
/// changed. What the Unicode tables say of other characters is left unsaid.
#[verifier::external_body]
pub(crate) fn to_uppercase(s: &str) -> (r: String)
    ensures
        r@ == uppercase(s@),
        is_ascii_chars(s@) ==> r@ == s@.map_values(|c: char| ascii_upper(c)),
{
    s.to_uppercase()
}

/// A text in lower case: letter by letter where it is ASCII, and as
/// `str::to_lowercase` has it otherwise.
pub open spec fn lower_text(s: Seq<char>) -> Seq<char> {
    if is_ascii_chars(s) {
        s.map_values(|c: char| ascii_lower(c))
    } else {
        lowercase(s)
    }
}

/// Puts a text in lower case.
pub fn lower_case(s: &str) -> (r: String)
    ensures
        r@ == lower_text(s@),
        r@ == lowercase(s@),
{
    to_lowercase(s)
}

/// A text in upper case: letter by letter where it is ASCII, and as
/// `str::to_uppercase` has it otherwise.
pub open spec fn upper_text(s: Seq<char>) -> Seq<char> {
    if is_ascii_chars(s) {
        s.map_values(|c: char| ascii_upper(c))
    } else {
        uppercase(s)
    }
}

/// Puts a text in upper case.
pub fn upper_case(s: &str) -> (r: String)
    ensures
        r@ == upper_text(s@),
        r@ == uppercase(s@),
{
    to_uppercase(s)
}

/// `char::is_alphanumeric`. The answer is a function of the character; of the
/// ASCII characters it holds for letters and digits only. What the Unicode
/// tables say of other characters is left unsaid.
#[verifier::external_body]
pub(crate) fn is_alphanumeric(c: char) -> (r: bool)
    ensures
        r == alphanumeric(c),
        c <= '\x7f' ==> r == ascii_alphanumeric(c),
{
    c.is_alphanumeric()
}

/// Whether a character is a letter or a digit: one of the usual sixty-two where
/// it is ASCII, and what `char::is_alphanumeric` has it to be otherwise.
pub open spec fn letter_or_digit(c: char) -> bool {
    if c <= '\x7f' {
        ascii_alphanumeric(c)
    } else {
        alphanumeric(c)
    }
}

/// Tells whether a character is a letter or a digit.
pub fn is_letter_or_digit(c: char) -> (r: bool)
    ensures
        r == letter_or_digit(c),
        r == alphanumeric(c),
{
    is_alphanumeric(c)
}

/// Bytes with a stray one between them.
pub open spec fn interrupted(before: Seq<u8>, stray: u8, after: Seq<u8>) -> Seq<u8> {
    before + seq![stray] + after
}

/// Stretches of bytes, a stray byte behind each, and what follows the last stray.
pub open spec fn riddled(parts: Seq<(Seq<u8>, u8)>, last: Seq<u8>) -> Seq<u8>
    decreases parts.len(),
{
    if parts.len() == 0 {
        last
    } else {
        interrupted(parts[0].0, parts[0].1, riddled(parts.skip(1), last))
    }
}

/// The text of such stretches, with U+FFFD in place of each stray byte.
pub open spec fn mended(parts: Seq<(Seq<u8>, u8)>, last: Seq<u8>) -> Seq<char>
    decreases parts.len(),
{
    if parts.len() == 0 {
        decode_utf8(last)
    } else {
        decode_utf8(parts[0].0) + seq!['\u{fffd}'] + mended(parts.skip(1), last)
    }
}

/// Whether the stretches are UTF-8, the strays are not, and no two strays touch.
pub open spec fn strays_apart(parts: Seq<(Seq<u8>, u8)>, last: Seq<u8>) -> bool {
    &&& valid_utf8(last)
    &&& forall|i: int|
        0 <= i < parts.len() ==> {
            &&& valid_utf8((#[trigger] parts[i]).0)
            &&& parts[i].1 >= 0x80
            &&& i > 0 ==> parts[i].0.len() > 0
        }
}

/// `String::from_utf8_lossy`. The result is a function of the bytes. Valid
/// UTF-8 is decoded as it stands. A stray byte, that is a single one beyond ASCII
/// with valid UTF-8 on both sides, is replaced by U+FFFD and leaves what stands
/// around it alone, as does each of several that do not touch. Where the
/// replacement characters go in other input is left unsaid.
#[verifier::external_body]
pub(crate) fn decode_lossy(bytes: &[u8]) -> (r: String)
    ensures
        r@ == lossy_text(bytes@),
        valid_utf8(bytes@) ==> r@ == decode_utf8(bytes@),
        forall|parts: Seq<(Seq<u8>, u8)>, last: Seq<u8>|
            bytes@ == #[trigger] riddled(parts, last) && strays_apart(parts, last) ==> r@ == mended(
                parts,
                last,
            ),
{
    String::from_utf8_lossy(bytes).into_owned()
}

/// The text that bytes hold: what they encode where they are UTF-8, that with
/// U+FFFD for each stray byte where such bytes are all that is amiss, and
/// otherwise what the lossy decoding makes of them.
pub open spec fn utf8_text(bytes: Seq<u8>) -> Seq<char> {
    if valid_utf8(bytes) {
        decode_utf8(bytes)
    } else if exists|parts: Seq<(Seq<u8>, u8)>, last: Seq<u8>|
        bytes == #[trigger] riddled(parts, last) && strays_apart(parts, last) {
        let (parts, last) = choose|parts: Seq<(Seq<u8>, u8)>, last: Seq<u8>|
            bytes == #[trigger] riddled(parts, last) && strays_apart(parts, last);
        mended(parts, last)
    } else {
        lossy_text(bytes)
    }
}

/// Whether a text keeps all that bytes hold: UTF-8 is decoded as it stands, and
/// a stray byte, or each of several, becomes U+FFFD and takes nothing with it.
pub open spec fn keeps_all(bytes: Seq<u8>, text: Seq<char>) -> bool {
    &&& valid_utf8(bytes) ==> text == decode_utf8(bytes)
    &&& forall|before: Seq<u8>, stray: u8, after: Seq<u8>|
        bytes == #[trigger] interrupted(before, stray, after) && stray >= 0x80 && valid_utf8(before)
            && valid_utf8(after) ==> text == decode_utf8(before) + seq!['\u{fffd}'] + decode_utf8(
            after,
        )
    &&& forall|parts: Seq<(Seq<u8>, u8)>, last: Seq<u8>|
        bytes == #[trigger] riddled(parts, last) && strays_apart(parts, last) ==> text == mended(
            parts,
            last,
        )
}

/// Reads bytes as UTF-8, undecodable ones replaced rather than dropped.
pub fn decode_utf8_bytes(bytes: &[u8]) -> (r: String)
    ensures
        r@ == utf8_text(bytes@),
        keeps_all(bytes@, r@),
{
    let r = decode_lossy(bytes);
    proof {
        assert forall|before: Seq<u8>, stray: u8, after: Seq<u8>|
            bytes@ == #[trigger] interrupted(before, stray, after) && stray >= 0x80 && valid_utf8(
                before,
            ) && valid_utf8(after) implies r@ == decode_utf8(before) + seq!['\u{fffd}']
            + decode_utf8(after) by {
            let parts = seq![(before, stray)];
            assert(parts.skip(1) =~= Seq::empty());
            assert(riddled(parts.skip(1), after) == after);
            assert(mended(parts.skip(1), after) == decode_utf8(after));
            assert(riddled(parts, after) == bytes@);
            assert(strays_apart(parts, after));
        }
    }
    r
}

/// `char::from_u32` gives the character with a scalar value, and `None` for a
/// number that is no scalar value.
pub assume_specification[ char::from_u32 ](i: u32) -> (r: Option<char>)
    ensures
        r == (if is_scalar(i) {
            Some(i as char)
        } else {
            None
        }),
;

} // verus!
