//! Numbers written in decimal.

use vstd::prelude::*;
use vstd::string::*;

use crate::text::{chars_of, digit_value, is_digit, to_digit};

verus! {

/// The number that a sequence of decimal digits writes.
pub open spec fn digits_value(s: Seq<char>) -> int
    decreases s.len(),
{
    if s.len() == 0 {
        0
    } else {
        digits_value(s.drop_last()) * 10 + digit_value(s.last())
    }
}

/// Whether `s` is made of decimal digits and holds at least one.
pub open spec fn is_number(s: Seq<char>) -> bool {
    &&& s.len() > 0
    &&& forall|i: int| 0 <= i < s.len() ==> is_digit(#[trigger] s[i])
}

/// The part of a number that follows its optional plus sign.
pub open spec fn unsigned_part(s: Seq<char>) -> Seq<char> {
    if s.len() > 0 && s[0] == '+' {
        s.skip(1)
    } else {
        s
    }
}

/// The `u32` that `s` writes: an optional plus sign, then one or more digits
/// whose value is in range.
pub open spec fn u32_of(s: Seq<char>) -> Option<u32> {
    let body = unsigned_part(s);
    if is_number(body) && digits_value(body) <= u32::MAX {
        Some(digits_value(body) as u32)
    } else {
        None
    }
}

/// A longer run of digits writes no smaller number.
proof fn lemma_digits_grow(s: Seq<char>, n: int)
    requires
        0 <= n <= s.len(),
        forall|i: int| 0 <= i < s.len() ==> is_digit(#[trigger] s[i]),
    ensures
        0 <= digits_value(s.take(n)) <= digits_value(s),
    decreases s.len(),
{
    if n == s.len() {
        assert(s.take(n) =~= s);
        if n > 0 {
            assert(s.drop_last().take(n - 1) =~= s.drop_last());
            lemma_digits_grow(s.drop_last(), n - 1);
        }
    } else {
        lemma_digits_grow(s.drop_last(), n);
        assert(s.drop_last().take(n) =~= s.take(n));
    }
}

/// Reads a `u32` from decimal text, as `u32::from_str` does.
pub fn parse_u32(s: &str) -> (r: Option<u32>)
    ensures
        r == u32_of(s@),
{
    let chars = chars_of(s);
    let len: usize = chars.len();
    let start: usize = if len > 0 && chars[0] == '+' {
        1
    } else {
        0
    };
    let ghost body = unsigned_part(s@);
    assert(body =~= s@.skip(start as int));
    if start == len {
        return None;
    }
    let mut i: usize = start;
    let mut value: u64 = 0;
    while i < len
        invariant
            chars@ == s@,
            len == s@.len(),
            start <= i <= len,
            body == unsigned_part(s@),
            body == s@.skip(start as int),
            value == digits_value(body.take(i - start)),
            value <= u32::MAX,
            forall|j: int| 0 <= j < i - start ==> is_digit(#[trigger] body[j]),
        decreases len - i,
    {
        assert(body[i - start] == s@[i as int]);
        match to_digit(chars[i]) {
            Some(d) => {
                assert(body.take(i + 1 - start).drop_last() =~= body.take(i - start));
                value = value * 10 + d as u64;
                i += 1;
                if value > u32::MAX as u64 {
                    proof {
                        if is_number(body) {
                            lemma_digits_grow(body, i - start);
                        }
                    }
                    return None;
                }
            },
            None => {
                return None;
            },
        }
    }
    assert(body.take(len - start) =~= body);
    Some(value as u32)
}

/// The decimal digit that writes a value below ten.
pub open spec fn digit_char(n: int) -> char {
    ('0' as int + n) as char
}

/// The shortest decimal writing of a number that is not negative.
pub open spec fn decimal_of_nat(n: nat) -> Seq<char>
    decreases n,
{
    if n < 10 {
        seq![digit_char(n as int)]
    } else {
        decimal_of_nat(n / 10).push(digit_char((n % 10) as int))
    }
}

/// The decimal writing of an integer.
pub open spec fn decimal_of(n: int) -> Seq<char> {
    if n < 0 {
        seq!['-'] + decimal_of_nat((-n) as nat)
    } else {
        decimal_of_nat(n as nat)
    }
}

fn digit(n: u32) -> (c: char)
    requires
        n < 10,
    ensures
        c == digit_char(n as int),
{
    (48u8 + n as u8) as char
}

fn push_decimal(out: &mut String, n: u32)
    ensures
        final(out)@ == old(out)@ + decimal_of_nat(n as nat),
    decreases n,
{
    if n >= 10 {
        push_decimal(out, n / 10);
    }
    out.push(digit(n % 10));
    assert(out@ =~= old(out)@ + decimal_of_nat(n as nat));
}

/// Writes an integer in decimal.
pub fn decimal(n: i32) -> (r: String)
    ensures
        r@ == decimal_of(n as int),
{
    let mut out = String::new();
    if n < 0 {
        out.push('-');
        let magnitude: u32 = (-(n as i64)) as u32;
        push_decimal(&mut out, magnitude);
        assert(out@ =~= seq!['-'] + decimal_of_nat((-n) as nat));
    } else {
        push_decimal(&mut out, n as u32);
        assert(out@ =~= decimal_of_nat(n as nat));
    }
    out
}

} // verus!
