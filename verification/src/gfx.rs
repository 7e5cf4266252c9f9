//! GPU targets and marketing names.

use vstd::prelude::*;
use vstd::string::*;
use vstd::utf8::is_ascii_chars;

use crate::split::{join, joined, replace, replaced, words, words_of};
use crate::text::{
    after_prefix, ascii_lower, chars_of, contains, digit_value, has_text, is_digit, matches_at,
    to_digit,
};
use crate::unicode::{lower_case, lower_text, lowercase};

verus! {

// ---------------------------------------------------------------------------
// Families of targets
// ---------------------------------------------------------------------------

/// The model digit that follows `prefix` in a gfx target.
pub open spec fn model_digit(gfx: Seq<char>, prefix: Seq<char>) -> Option<u32> {
    match after_prefix(gfx, prefix) {
        Some(rest) => if rest.len() > 0 && is_digit(rest[0]) {
            Some(digit_value(rest[0]) as u32)
        } else {
            None
        },
        None => None,
    }
}

/// The model digit that follows `prefix` in a gfx target, e.g. `3` from
/// `gfx1103` given prefix `gfx110`. `None` when `gfx` does not start with
/// `prefix` or has no digit there. A trailing feature suffix (such as
/// `:sramecc+:xnack-`) is ignored.
pub fn gfx_model_digit(gfx: &str, prefix: &str) -> (r: Option<u32>)
    ensures
        r == model_digit(gfx@, prefix@),
{
    let chars = chars_of(gfx);
    let wanted = chars_of(prefix);
    let n: usize = wanted.len();
    if n < chars.len() && matches_at(&chars, &wanted, 0) {
        assert(gfx@.skip(n as int)[0] == chars@[n as int]);
        to_digit(chars[n])
    } else {
        None
    }
}

/// Whether a target in lower case belongs to an APU family: every gfx115x part
/// does, and of the gfx110x parts those from gfx1103 on. `None` for a target
/// outside these two families, which means "no opinion", not "discrete".
pub open spec fn lowered_family(g: Seq<char>) -> Option<bool> {
    if model_digit(g, "gfx115"@) is Some {
        Some(true)
    } else {
        match model_digit(g, "gfx110"@) {
            Some(digit) => Some(digit >= 3),
            None => None,
        }
    }
}

/// The family verdict on a target written in any case.
pub open spec fn family_verdict(gfx: Seq<char>) -> Option<bool> {
    lowered_family(lower_text(gfx))
}

/// Whether a gfx target in lower case belongs to an AMD APU family, or `None`
/// when the table does not cover it.
pub fn lowered_family_verdict(g: &str) -> (r: Option<bool>)
    ensures
        r == lowered_family(g@),
{
    if gfx_model_digit(g, "gfx115").is_some() {
        return Some(true);
    }
    match gfx_model_digit(g, "gfx110") {
        Some(digit) => Some(digit >= 3),
        None => None,
    }
}

/// Whether a gfx target belongs to an AMD APU family, or `None` when this table
/// does not cover the target at all.
///
/// The table is deliberately narrow: it knows the gfx110x split and the gfx115x
/// Strix parts, and nothing else. Every other target, including integrated ones
/// older than the table, answers `None`.
pub fn gfx_apu_family_verdict(gfx: &str) -> (r: Option<bool>)
    ensures
        r == family_verdict(gfx@),
        r == lowered_family(lowercase(gfx@)),
        is_ascii_chars(gfx@) ==> r == lowered_family(gfx@.map_values(|c: char| ascii_lower(c))),
{
    let g = lower_case(gfx);
    lowered_family_verdict(g.as_str())
}

/// Whether a gfx target belongs to an AMD APU family.
///
/// `false` folds together "known to be discrete" and "not in the table"; a
/// caller that already holds a verdict from another source wants
/// [`gfx_apu_family_verdict`], which keeps the two apart.
pub fn gfx_is_apu_family(gfx: &str) -> (r: bool)
    ensures
        r == (family_verdict(gfx@) == Some(true)),
        r == (lowered_family(lowercase(gfx@)) == Some(true)),
        is_ascii_chars(gfx@) ==> r == (lowered_family(
            gfx@.map_values(|c: char| ascii_lower(c)),
        ) == Some(true)),
{
    match gfx_apu_family_verdict(gfx) {
        Some(verdict) => verdict,
        None => false,
    }
}

// ---------------------------------------------------------------------------
// Marketing names
// ---------------------------------------------------------------------------

/// A name in lower case without its trademark decorations, its words one space
/// apart.
pub open spec fn undecorated(lowered: Seq<char>) -> Seq<char> {
    let a = replaced(lowered, "(tm)"@, " "@);
    let b = replaced(a, "(r)"@, " "@);
    let c = replaced(b, "(c)"@, " "@);
    let d = replaced(c, "(\u{2122})"@, " "@);
    joined(words_of(d), " "@)
}

/// Whether a name holds a fragment that identifies an AMD APU.
pub open spec fn names_apu(n: Seq<char>) -> bool {
    ||| has_text(n, "strix halo"@)
    ||| has_text(n, "ryzen ai max"@)
    ||| has_text(n, "phoenix"@)
    ||| has_text(n, "hawk point"@)
    ||| has_text(n, "strix point"@)
    ||| has_text(n, "krackan"@)
    ||| has_text(n, "rembrandt"@)
    ||| has_text(n, "raphael"@)
    ||| has_text(n, "barcelo"@)
    ||| has_text(n, "lucienne"@)
    ||| has_text(n, "renoir"@)
    ||| has_text(n, "cezanne"@)
}

/// The target and the kind that an undecorated name suggests.
pub open spec fn undecorated_guess(n: Seq<char>) -> (Seq<char>, bool) {
    if has_text(n, "ryzen ai max"@) || has_text(n, "strix halo"@) || has_text(n, "radeon 8050s"@)
        || has_text(n, "radeon 8060s"@) || has_text(n, "radeon 8045s"@) {
        ("gfx1151"@, true)
    } else if has_text(n, "radeon 880m"@) || has_text(n, "radeon 890m"@) || has_text(
        n,
        "strix point"@,
    ) || has_text(n, "krackan"@) {
        ("gfx1150"@, true)
    } else if has_text(n, "radeon 780m"@) || has_text(n, "radeon 760m"@) || has_text(
        n,
        "radeon 740m"@,
    ) || has_text(n, "phoenix"@) || has_text(n, "hawk point"@) {
        ("gfx1103"@, true)
    } else {
        (Seq::empty(), names_apu(n))
    }
}

/// The target and the kind that a marketing name suggests.
pub open spec fn marketing_guess(name: Seq<char>) -> (Seq<char>, bool) {
    undecorated_guess(undecorated(lower_text(name)))
}

/// Removes trademark decorations from a name in lower case.
pub fn undecorate(lowered: &str) -> (r: String)
    ensures
        r@ == undecorated(lowered@),
{
    proof {
        reveal_strlit("(tm)");
        reveal_strlit("(r)");
        reveal_strlit("(c)");
        reveal_strlit("(\u{2122})");
    }
    let a = replace(lowered, "(tm)", " ");
    let b = replace(a.as_str(), "(r)", " ");
    let c = replace(b.as_str(), "(c)", " ");
    let d = replace(c.as_str(), "(\u{2122})", " ");
    join(words(d.as_str()).as_slice(), " ")
}

/// Best-effort `(gfx_target, is_apu)` for an undecorated name.
pub fn classify_undecorated_name(n: &str) -> (r: (String, bool))
    ensures
        (r.0@, r.1) == undecorated_guess(n@),
{
    if contains(n, "ryzen ai max") || contains(n, "strix halo") || contains(n, "radeon 8050s")
        || contains(n, "radeon 8060s") || contains(n, "radeon 8045s") {
        return ("gfx1151".to_owned(), true);
    }
    if contains(n, "radeon 880m") || contains(n, "radeon 890m") || contains(n, "strix point")
        || contains(n, "krackan") {
        return ("gfx1150".to_owned(), true);
    }
    if contains(n, "radeon 780m") || contains(n, "radeon 760m") || contains(n, "radeon 740m")
        || contains(n, "phoenix") || contains(n, "hawk point") {
        return ("gfx1103".to_owned(), true);
    }
    let is_apu = contains(n, "strix halo") || contains(n, "ryzen ai max") || contains(n, "phoenix")
        || contains(n, "hawk point") || contains(n, "strix point") || contains(n, "krackan")
        || contains(n, "rembrandt") || contains(n, "raphael") || contains(n, "barcelo") || contains(
        n,
        "lucienne",
    ) || contains(n, "renoir") || contains(n, "cezanne");
    (String::new(), is_apu)
}

/// Best-effort `(gfx_target, is_apu)` for an AMD marketing name.
pub fn classify_amd_marketing_name(name: &str) -> (r: (String, bool))
    ensures
        (r.0@, r.1) == marketing_guess(name@),
        (r.0@, r.1) == undecorated_guess(undecorated(lowercase(name@))),
        is_ascii_chars(name@) ==> (r.0@, r.1) == undecorated_guess(
            undecorated(name@.map_values(|c: char| ascii_lower(c))),
        ),
{
    let lowered = lower_case(name);
    classify_undecorated_name(undecorate(lowered.as_str()).as_str())
}

} // verus!
