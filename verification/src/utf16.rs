//! UTF-16 in little-endian byte order, as `wsl.exe` writes it.

use vstd::prelude::*;
use vstd::string::*;

verus! {

/// The first half of a surrogate pair.
pub open spec fn is_high(u: u16) -> bool {
    0xd800 <= u <= 0xdbff
}

/// The second half of a surrogate pair.
pub open spec fn is_low(u: u16) -> bool {
    0xdc00 <= u <= 0xdfff
}

/// The character that a surrogate pair stands for.
pub open spec fn pair_char(high: u16, low: u16) -> char {
    (0x10000 + (high - 0xd800) * 0x400 + (low - 0xdc00)) as char
}

/// The text that code units stand for. An unpaired surrogate becomes U+FFFD.
pub open spec fn utf16_text(units: Seq<u16>) -> Seq<char>
    decreases units.len(),
{
    if units.len() == 0 {
        Seq::empty()
    } else if is_high(units[0]) && units.len() > 1 && is_low(units[1]) {
        seq![pair_char(units[0], units[1])] + utf16_text(units.skip(2))
    } else if is_high(units[0]) || is_low(units[0]) {
        seq!['\u{fffd}'] + utf16_text(units.skip(1))
    } else {
        seq![units[0] as char] + utf16_text(units.skip(1))
    }
}

/// The bytes after an optional little-endian byte order mark.
pub open spec fn after_mark(bytes: Seq<u8>) -> Seq<u8> {
    if bytes.len() >= 2 && bytes[0] == 0xff && bytes[1] == 0xfe {
        bytes.skip(2)
    } else {
        bytes
    }
}

/// The code units in a byte sequence; an odd last byte is not one.
pub open spec fn code_units(bytes: Seq<u8>) -> Seq<u16> {
    Seq::new(bytes.len() / 2, |i: int| (bytes[2 * i] + bytes[2 * i + 1] * 256) as u16)
}

/// The text in a little-endian UTF-16 byte sequence.
pub open spec fn utf16le_text(bytes: Seq<u8>) -> Seq<char> {
    utf16_text(code_units(after_mark(bytes)))
}

/// The text of code units, unpaired surrogates replaced.
fn text_of_units(units: &Vec<u16>) -> (r: String)
    ensures
        r@ == utf16_text(units@),
{
    let n: usize = units.len();
    let mut out = String::new();
    let mut i: usize = 0;
    assert(units@.skip(0) =~= units@);
    assert(out@ + utf16_text(units@) =~= utf16_text(units@));
    while i < n
        invariant
            n == units@.len(),
            i <= n,
            out@ + utf16_text(units@.skip(i as int)) == utf16_text(units@),
        decreases n - i,
    {
        let ghost rest = units@.skip(i as int);
        let ghost before = out@;
        let u: u16 = units[i];
        if 0xd800 <= u && u <= 0xdbff && n - i > 1 && 0xdc00 <= units[i + 1] && units[i + 1]
            <= 0xdfff {
            let low: u16 = units[i + 1];
            let code: u32 = 0x10000 + (u as u32 - 0xd800) * 0x400 + (low as u32 - 0xdc00);
            let c = match char::from_u32(code) {
                Some(c) => c,
                None => '\u{fffd}',
            };
            out.push(c);
            assert(rest.skip(2) =~= units@.skip(i + 2));
            assert(before + (seq![c] + utf16_text(units@.skip(i + 2))) =~= out@ + utf16_text(
                units@.skip(i + 2),
            ));
            i += 2;
        } else {
            let c = if 0xd800 <= u && u <= 0xdfff {
                '\u{fffd}'
            } else {
                match char::from_u32(u as u32) {
                    Some(c) => c,
                    None => '\u{fffd}',
                }
            };
            out.push(c);
            assert(rest.skip(1) =~= units@.skip(i + 1));
            assert(before + (seq![c] + utf16_text(units@.skip(i + 1))) =~= out@ + utf16_text(
                units@.skip(i + 1),
            ));
            i += 1;
        }
    }
    assert(units@.skip(n as int) =~= Seq::empty());
    assert(out@ + Seq::<char>::empty() =~= out@);
    out
}

/// Decodes little-endian UTF-16, with or without a byte order mark.
pub fn decode_utf16le(bytes: &[u8]) -> (r: String)
    ensures
        r@ == utf16le_text(bytes@),
{
    let len: usize = bytes.len();
    let start: usize = if len >= 2 && bytes[0] == 0xff && bytes[1] == 0xfe {
        2
    } else {
        0
    };
    let ghost body = after_mark(bytes@);
    assert(body =~= bytes@.skip(start as int));
    let count: usize = (len - start) / 2;
    let mut units: Vec<u16> = Vec::new();
    let mut k: usize = 0;
    while k < count
        invariant
            len == bytes@.len(),
            start <= len,
            count == (len - start) / 2,
            body == bytes@.skip(start as int),
            k <= count,
            units@ == code_units(body).take(k as int),
        decreases count - k,
    {
        let at: usize = start + 2 * k;
        let low: u16 = bytes[at] as u16;
        let high: u16 = bytes[at + 1] as u16;
        units.push(low + high * 256);
        assert(units@ =~= code_units(body).take(k + 1));
        k += 1;
    }
    assert(code_units(body).take(count as int) =~= code_units(body));
    text_of_units(&units)
}

// ---------------------------------------------------------------------------
// Encoding, for what decoding undoes
// ---------------------------------------------------------------------------

/// The code units of one character.
pub open spec fn units_of_char(c: char) -> Seq<u16> {
    if c as int <= 0xffff {
        seq![c as u16]
    } else {
        seq![
            (0xd800 + (c as int - 0x10000) / 0x400) as u16,
            (0xdc00 + (c as int - 0x10000) % 0x400) as u16,
        ]
    }
}

/// The code units of a text.
pub open spec fn units_of(s: Seq<char>) -> Seq<u16>
    decreases s.len(),
{
    if s.len() == 0 {
        Seq::empty()
    } else {
        units_of_char(s[0]) + units_of(s.skip(1))
    }
}

/// The bytes of code units, low byte first.
pub open spec fn bytes_of(units: Seq<u16>) -> Seq<u8> {
    Seq::new(
        2 * units.len(),
        |i: int|
            if i % 2 == 0 {
                (units[i / 2] % 256) as u8
            } else {
                (units[i / 2] / 256) as u8
            },
    )
}

/// A character is a Unicode scalar value.
proof fn lemma_scalar_value(c: char)
    ensures
        0 <= c as int <= 0x10ffff,
        !(0xd800 <= c as int <= 0xdfff),
{
}

/// Decoding the code units of a text gives the text back.
pub proof fn lemma_units_round_trip(s: Seq<char>)
    ensures
        utf16_text(units_of(s)) == s,
    decreases s.len(),
{
    if s.len() > 0 {
        let c = s[0];
        let rest = units_of(s.skip(1));
        lemma_units_round_trip(s.skip(1));
        lemma_scalar_value(c);
        assert(s =~= seq![c] + s.skip(1));
        let all = units_of(s);
        if c as int <= 0xffff {
            assert(all.skip(1) =~= rest);
            assert(all[0] == c as u16);
            assert(!is_high(all[0]) && !is_low(all[0]));
        } else {
            assert(all.skip(2) =~= rest);
            let n = c as int - 0x10000;
            assert(0 <= n < 0x100000);
            assert(0 <= n / 0x400 < 0x400);
            assert(is_high(all[0]) && is_low(all[1]));
            assert((n / 0x400) * 0x400 + n % 0x400 == n);
            assert(pair_char(all[0], all[1]) == c);
        }
    } else {
        assert(utf16_text(units_of(s)) =~= s);
    }
}

/// Reading back the bytes of code units gives the units.
pub proof fn lemma_bytes_round_trip(units: Seq<u16>)
    ensures
        code_units(bytes_of(units)) == units,
{
    let b = bytes_of(units);
    assert forall|i: int| 0 <= i < units.len() implies code_units(b)[i] == units[i] by {
        assert((2 * i) / 2 == i && (2 * i) % 2 == 0);
        assert((2 * i + 1) / 2 == i && (2 * i + 1) % 2 == 1);
        let u = units[i];
        assert(u % 256 + (u / 256) * 256 == u);
    }
    assert(code_units(b) =~= units);
}

/// Text survives the encoding in any script: whatever a program writes as
/// little-endian UTF-16 behind a byte order mark is decoded to what it wrote.
pub proof fn law_marked_text_survives(s: Seq<char>)
    ensures
        utf16le_text(seq![0xffu8, 0xfeu8] + bytes_of(units_of(s))) == s,
{
    let b = bytes_of(units_of(s));
    assert((seq![0xffu8, 0xfeu8] + b).skip(2) =~= b);
    lemma_bytes_round_trip(units_of(s));
    lemma_units_round_trip(s);
}

/// Without a byte order mark, too, text is decoded to what was written, unless
/// it begins with the mark's own character.
pub proof fn law_unmarked_text_survives(s: Seq<char>)
    requires
        s.len() > 0 ==> s[0] != '\u{feff}',
    ensures
        utf16le_text(bytes_of(units_of(s))) == s,
{
    let units = units_of(s);
    let b = bytes_of(units);
    if s.len() > 0 {
        let c = s[0];
        lemma_scalar_value(c);
        let n = c as int - 0x10000;
        assert(units[0] == units_of_char(c)[0]);
        assert(n >= 0 ==> 0 <= n / 0x400 < 0x400);
        assert(b[0] == units[0] % 256 && b[1] == units[0] / 256);
        assert(units[0] != 0xfeff);
        assert(after_mark(b) =~= b);
    } else {
        assert(after_mark(b) =~= b);
    }
    lemma_bytes_round_trip(units);
    lemma_units_round_trip(s);
}

/// An odd byte at the end is dropped: it changes nothing of what is decoded.
pub proof fn law_odd_byte_is_dropped(bytes: Seq<u8>, last: u8)
    requires
        bytes.len() % 2 == 0,
    ensures
        utf16le_text(bytes.push(last)) == utf16le_text(bytes),
{
    let body = after_mark(bytes);
    let longer = after_mark(bytes.push(last));
    assert(longer =~= body.push(last));
    assert(code_units(longer) =~= code_units(body));
}

/// Half of a surrogate pair without its other half becomes U+FFFD, and takes
/// nothing of the text around it.
pub proof fn law_lone_surrogate_is_replaced(before: Seq<char>, lone: u16, after: Seq<char>)
    requires
        0xd800 <= lone <= 0xdfff,
    ensures
        utf16_text(units_of(before) + seq![lone] + units_of(after)) == before + seq!['\u{fffd}']
            + after,
    decreases before.len(),
{
    let all = units_of(before) + seq![lone] + units_of(after);
    if before.len() == 0 {
        assert(all =~= seq![lone] + units_of(after));
        assert(all.skip(1) =~= units_of(after));
        lemma_units_round_trip(after);
        if after.len() > 0 {
            let c = after[0];
            lemma_scalar_value(c);
            let n = c as int - 0x10000;
            assert(n >= 0 ==> 0 <= n / 0x400 < 0x400);
            assert(units_of(after)[0] == units_of_char(c)[0]);
            assert(!is_low(units_of(after)[0]));
            assert(all[1] == units_of(after)[0]);
        }
        assert(before + seq!['\u{fffd}'] + after =~= seq!['\u{fffd}'] + after);
    } else {
        let c = before[0];
        let rest = before.skip(1);
        let tail = units_of(rest) + seq![lone] + units_of(after);
        law_lone_surrogate_is_replaced(rest, lone, after);
        lemma_scalar_value(c);
        assert(all =~= units_of_char(c) + tail);
        assert(before + seq!['\u{fffd}'] + after =~= seq![c] + (rest + seq!['\u{fffd}'] + after));
        if c as int <= 0xffff {
            assert(all.skip(1) =~= tail);
            assert(all[0] == c as u16);
            assert(!is_high(all[0]) && !is_low(all[0]));
        } else {
            assert(all.skip(2) =~= tail);
            let n = c as int - 0x10000;
            assert(0 <= n < 0x100000);
            assert(0 <= n / 0x400 < 0x400);
            assert(is_high(all[0]) && is_low(all[1]));
            assert((n / 0x400) * 0x400 + n % 0x400 == n);
            assert(pair_char(all[0], all[1]) == c);
        }
    }
}

} // verus!
