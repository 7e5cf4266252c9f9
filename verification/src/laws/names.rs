//! What holds of marketing names: which of them name which target, and what of
//! their writing does not matter.

use vstd::prelude::*;
use vstd::string::*;
use vstd::utf8::*;

use crate::gfx::{
    family_verdict, lowered_family, marketing_guess, model_digit, undecorated, undecorated_guess,
};
use crate::laws::text::{
    all_space, are_words, digits, holds, law_after_prefix, law_join, law_prefix, law_replace_first,
    law_replace_nothing, law_search, law_words_are_read_back, spaced, strung, words_alone,
};
use crate::split::replaced;
use crate::text::{ascii_lower, begins_with, has_text, is_digit, occurs_at};
use crate::unicode::lower_text;

verus! {

broadcast use law_search;

// ---------------------------------------------------------------------------
// The table
// ---------------------------------------------------------------------------

/// Whether a name holds one of the marks of a Strix Halo.
pub open spec fn marks_strix_halo(n: Seq<char>) -> bool {
    holds(n, "ryzen ai max"@) || holds(n, "strix halo"@) || holds(n, "radeon 8050s"@) || holds(
        n,
        "radeon 8060s"@,
    ) || holds(n, "radeon 8045s"@)
}

/// Whether a name holds one of the marks of a Strix Point or a Krackan.
pub open spec fn marks_strix_point(n: Seq<char>) -> bool {
    holds(n, "radeon 880m"@) || holds(n, "radeon 890m"@) || holds(n, "strix point"@) || holds(
        n,
        "krackan"@,
    )
}

/// Whether a name holds one of the marks of a Phoenix or a Hawk Point.
pub open spec fn marks_phoenix(n: Seq<char>) -> bool {
    holds(n, "radeon 780m"@) || holds(n, "radeon 760m"@) || holds(n, "radeon 740m"@) || holds(
        n,
        "phoenix"@,
    ) || holds(n, "hawk point"@)
}

/// Whether a name holds one of the marks of an older APU.
pub open spec fn marks_older_apu(n: Seq<char>) -> bool {
    holds(n, "rembrandt"@) || holds(n, "raphael"@) || holds(n, "barcelo"@) || holds(n, "lucienne"@)
        || holds(n, "renoir"@) || holds(n, "cezanne"@)
}

/// A name that holds a mark gives the target of that row, and the rows are tried
/// from the newest down. An older APU is known for one without its target, and
/// any other name says nothing.
pub proof fn law_names_name_targets(n: Seq<char>)
    ensures
        marks_strix_halo(n) ==> undecorated_guess(n) == ("gfx1151"@, true),
        marks_strix_point(n) && !marks_strix_halo(n) ==> undecorated_guess(n) == (
            "gfx1150"@,
            true,
        ),
        marks_phoenix(n) && !marks_strix_halo(n) && !marks_strix_point(n) ==> undecorated_guess(n)
            == ("gfx1103"@, true),
        marks_older_apu(n) && !marks_strix_halo(n) && !marks_strix_point(n) && !marks_phoenix(n)
            ==> undecorated_guess(n) == (Seq::<char>::empty(), true),
        !marks_strix_halo(n) && !marks_strix_point(n) && !marks_phoenix(n) && !marks_older_apu(n)
            ==> undecorated_guess(n) == (Seq::<char>::empty(), false),
{
}

/// What stands around a mark does not matter: of each row every mark, wherever
/// it stands in the name, gives the target, unless a mark of a row above does.
pub proof fn law_marks_count_anywhere(before: Seq<char>, after: Seq<char>)
    ensures
        undecorated_guess(before + "ryzen ai max"@ + after) == ("gfx1151"@, true),
        undecorated_guess(before + "strix halo"@ + after) == ("gfx1151"@, true),
        undecorated_guess(before + "radeon 8050s"@ + after) == ("gfx1151"@, true),
        undecorated_guess(before + "radeon 8060s"@ + after) == ("gfx1151"@, true),
        undecorated_guess(before + "radeon 8045s"@ + after) == ("gfx1151"@, true),
        ({
            let n = before + "radeon 880m"@ + after;
            !marks_strix_halo(n) ==> undecorated_guess(n) == ("gfx1150"@, true)
        }),
        ({
            let n = before + "radeon 890m"@ + after;
            !marks_strix_halo(n) ==> undecorated_guess(n) == ("gfx1150"@, true)
        }),
        ({
            let n = before + "strix point"@ + after;
            !marks_strix_halo(n) ==> undecorated_guess(n) == ("gfx1150"@, true)
        }),
        ({
            let n = before + "krackan"@ + after;
            !marks_strix_halo(n) ==> undecorated_guess(n) == ("gfx1150"@, true)
        }),
        ({
            let n = before + "radeon 780m"@ + after;
            !marks_strix_halo(n) && !marks_strix_point(n) ==> undecorated_guess(n) == (
                "gfx1103"@,
                true,
            )
        }),
        ({
            let n = before + "radeon 760m"@ + after;
            !marks_strix_halo(n) && !marks_strix_point(n) ==> undecorated_guess(n) == (
                "gfx1103"@,
                true,
            )
        }),
        ({
            let n = before + "radeon 740m"@ + after;
            !marks_strix_halo(n) && !marks_strix_point(n) ==> undecorated_guess(n) == (
                "gfx1103"@,
                true,
            )
        }),
        ({
            let n = before + "phoenix"@ + after;
            !marks_strix_halo(n) && !marks_strix_point(n) ==> undecorated_guess(n) == (
                "gfx1103"@,
                true,
            )
        }),
        ({
            let n = before + "hawk point"@ + after;
            !marks_strix_halo(n) && !marks_strix_point(n) ==> undecorated_guess(n) == (
                "gfx1103"@,
                true,
            )
        }),
        undecorated_guess(before + "rembrandt"@ + after).1,
        undecorated_guess(before + "raphael"@ + after).1,
        undecorated_guess(before + "barcelo"@ + after).1,
        undecorated_guess(before + "lucienne"@ + after).1,
        undecorated_guess(before + "renoir"@ + after).1,
        undecorated_guess(before + "cezanne"@ + after).1,
{
    assert(holds(before + "ryzen ai max"@ + after, "ryzen ai max"@));
    assert(holds(before + "strix halo"@ + after, "strix halo"@));
    assert(holds(before + "radeon 8050s"@ + after, "radeon 8050s"@));
    assert(holds(before + "radeon 8060s"@ + after, "radeon 8060s"@));
    assert(holds(before + "radeon 8045s"@ + after, "radeon 8045s"@));
    assert(holds(before + "radeon 880m"@ + after, "radeon 880m"@));
    assert(holds(before + "radeon 890m"@ + after, "radeon 890m"@));
    assert(holds(before + "strix point"@ + after, "strix point"@));
    assert(holds(before + "krackan"@ + after, "krackan"@));
    assert(holds(before + "radeon 780m"@ + after, "radeon 780m"@));
    assert(holds(before + "radeon 760m"@ + after, "radeon 760m"@));
    assert(holds(before + "radeon 740m"@ + after, "radeon 740m"@));
    assert(holds(before + "phoenix"@ + after, "phoenix"@));
    assert(holds(before + "hawk point"@ + after, "hawk point"@));
    assert(holds(before + "rembrandt"@ + after, "rembrandt"@));
    assert(holds(before + "raphael"@ + after, "raphael"@));
    assert(holds(before + "barcelo"@ + after, "barcelo"@));
    assert(holds(before + "lucienne"@ + after, "lucienne"@));
    assert(holds(before + "renoir"@ + after, "renoir"@));
    assert(holds(before + "cezanne"@ + after, "cezanne"@));
}

// ---------------------------------------------------------------------------
// Decorations, blanks and case
// ---------------------------------------------------------------------------

/// The marks between round brackets that decorate a name.
pub open spec fn decorations() -> Seq<Seq<char>> {
    seq!["(tm)"@, "(r)"@, "(c)"@, "(\u{2122})"@]
}

/// A copy of a text that opens with a bracket stands only where a bracket does.
proof fn lemma_bracket_only(
    before: Seq<char>,
    mark: Seq<char>,
    after: Seq<char>,
    from: Seq<char>,
    i: int,
)
    requires
        !before.contains('('),
        !after.contains('('),
        mark.len() > 1,
        mark[0] == '(',
        forall|k: int| 0 < k < mark.len() ==> mark[k] != '(',
        from.len() > 1,
        from[0] == '(',
        occurs_at(before + mark + after, from, i),
    ensures
        i == before.len(),
        from[1] == mark[1],
{
    let s = before + mark + after;
    assert(s.subrange(i, i + from.len())[0] == s[i]);
    assert(s.subrange(i, i + from.len())[1] == s[i + 1]);
    assert(s[i] == '(');
    if i < before.len() {
        assert(before[i] == '(');
    } else if i >= before.len() + mark.len() {
        assert(after[i - before.len() - mark.len()] == '(');
    } else {
        assert(s[i] == mark[i - before.len()]);
        assert(s[i + 1] == mark[1]);
    }
}

proof fn lemma_no_bracket(s: Seq<char>, from: Seq<char>)
    requires
        !s.contains('('),
        from.len() > 0,
        from[0] == '(',
    ensures
        replaced(s, from, " "@) == s,
{
    assert(!holds(s, from)) by {
        if holds(s, from) {
            assert(has_text(s, from));
            let i = choose|i: int| occurs_at(s, from, i);
            assert(s.subrange(i, i + from.len())[0] == s[i]);
            assert(s.contains(s[i]));
        }
    }
    law_replace_nothing(s, from, " "@);
}

proof fn lemma_mark_replaced(before: Seq<char>, mark: Seq<char>, after: Seq<char>, from: Seq<char>)
    requires
        !before.contains('('),
        !after.contains('('),
        mark.len() > 1,
        mark[0] == '(',
        forall|k: int| 0 < k < mark.len() ==> mark[k] != '(',
        from.len() > 1,
        from[0] == '(',
    ensures
        from == mark ==> replaced(before + mark + after, from, " "@) == before + " "@ + after,
        from[1] != mark[1] ==> replaced(before + mark + after, from, " "@) == before + mark
            + after,
{
    let s = before + mark + after;
    if from == mark {
        assert forall|i: int| 0 <= i < before.len() implies !occurs_at(s, from, i) by {
            if occurs_at(s, from, i) {
                lemma_bracket_only(before, mark, after, from, i);
            }
        }
        law_replace_first(before, from, after, " "@);
        lemma_no_bracket(after, from);
    }
    if from[1] != mark[1] {
        assert(!holds(s, from)) by {
            if holds(s, from) {
                assert(has_text(s, from));
                let i = choose|i: int| occurs_at(s, from, i);
                lemma_bracket_only(before, mark, after, from, i);
            }
        }
        law_replace_nothing(s, from, " "@);
    }
}

/// A decoration counts as a blank.
pub proof fn law_decorations_are_blanks(before: Seq<char>, k: int, after: Seq<char>)
    requires
        0 <= k < 4,
        !before.contains('('),
        !after.contains('('),
    ensures
        undecorated(before + decorations()[k] + after) == undecorated(before + " "@ + after),
{
    reveal_strlit("(tm)");
    reveal_strlit("(r)");
    reveal_strlit("(c)");
    reveal_strlit("(\u{2122})");
    reveal_strlit(" ");
    let mark = decorations()[k];
    let plain = before + " "@ + after;
    assert(!plain.contains('(')) by {
        if plain.contains('(') {
            let i = choose|i: int| 0 <= i < plain.len() && plain[i] == '(';
            if i < before.len() {
                assert(before[i] == '(');
            } else if i > before.len() {
                assert(after[i - before.len() - 1] == '(');
            }
        }
    }
    lemma_no_bracket(plain, "(tm)"@);
    lemma_no_bracket(plain, "(r)"@);
    lemma_no_bracket(plain, "(c)"@);
    lemma_no_bracket(plain, "(\u{2122})"@);
    assert("(tm)"@[1] == 't' && "(r)"@[1] == 'r' && "(c)"@[1] == 'c');
    assert("(\u{2122})"@[1] == '\u{2122}');
    lemma_mark_replaced(before, mark, after, "(tm)"@);
    lemma_mark_replaced(before, mark, after, "(r)"@);
    lemma_mark_replaced(before, mark, after, "(c)"@);
    lemma_mark_replaced(before, mark, after, "(\u{2122})"@);
}

/// Without decorations, a name is its words with one blank between each two,
/// whatever blanks stood around them.
pub proof fn law_blanks_in_names(lead: Seq<char>, words: Seq<(Seq<char>, Seq<char>)>)
    requires
        all_space(lead),
        are_words(words),
        !(lead + spaced(words)).contains('('),
    ensures
        undecorated(lead + spaced(words)) == strung(words_alone(words), " "@),
{
    reveal_strlit("(tm)");
    reveal_strlit("(r)");
    reveal_strlit("(c)");
    reveal_strlit("(\u{2122})");
    let s = lead + spaced(words);
    lemma_no_bracket(s, "(tm)"@);
    lemma_no_bracket(s, "(r)"@);
    lemma_no_bracket(s, "(c)"@);
    lemma_no_bracket(s, "(\u{2122})"@);
    law_words_are_read_back(lead, words);
    law_join(words_alone(words), " "@);
}

proof fn lemma_lower_twice(s: Seq<char>)
    requires
        is_ascii_chars(s),
    ensures
        is_ascii_chars(lower_text(s)),
        lower_text(lower_text(s)) == lower_text(s),
{
    let t = lower_text(s);
    assert forall|i: int| 0 <= i < t.len() implies (#[trigger] t[i] as nat) < 128 && ascii_lower(
        t[i],
    ) == t[i] by {
        assert((s[i] as nat) < 128);
        assert(t[i] == ascii_lower(s[i]));
    }
    assert(lower_text(t) =~= t);
}

/// The case of the letters of an ASCII name does not matter.
pub proof fn law_case_of_names(name: Seq<char>)
    requires
        is_ascii_chars(name),
    ensures
        marketing_guess(name) == marketing_guess(lower_text(name)),
{
    lemma_lower_twice(name);
}

pub(crate) proof fn lemma_lower_concat(a: Seq<char>, b: Seq<char>)
    requires
        is_ascii_chars(a),
        is_ascii_chars(b),
    ensures
        is_ascii_chars(a + b),
        lower_text(a + b) == lower_text(a) + lower_text(b),
{
    assert forall|i: int| 0 <= i < (a + b).len() implies (#[trigger] (a + b)[i] as nat) < 128 by {
        if i < a.len() {
            assert((a + b)[i] == a[i]);
        } else {
            assert((a + b)[i] == b[i - a.len()]);
        }
    }
    assert(lower_text(a + b) =~= lower_text(a) + lower_text(b));
}

/// The trademark decorations of a name, in capitals as vendors write them, count
/// as blanks: the name is classified as it is without them.
pub proof fn law_trademarks_do_not_matter(before: Seq<char>, after: Seq<char>)
    requires
        is_ascii_chars(before),
        is_ascii_chars(after),
        !before.contains('('),
        !after.contains('('),
    ensures
        marketing_guess(before + "(TM)"@ + after) == marketing_guess(before + " "@ + after),
        marketing_guess(before + "(R)"@ + after) == marketing_guess(before + " "@ + after),
        marketing_guess(before + "(C)"@ + after) == marketing_guess(before + " "@ + after),
{
    reveal_strlit("(TM)");
    reveal_strlit("(R)");
    reveal_strlit("(C)");
    reveal_strlit("(tm)");
    reveal_strlit("(r)");
    reveal_strlit("(c)");
    reveal_strlit(" ");
    assert(lower_text("(TM)"@) =~= "(tm)"@);
    assert(lower_text("(R)"@) =~= "(r)"@);
    assert(lower_text("(C)"@) =~= "(c)"@);
    assert(lower_text(" "@) =~= " "@);
    lemma_lower_concat(before, "(TM)"@);
    lemma_lower_concat(before + "(TM)"@, after);
    lemma_lower_concat(before, "(R)"@);
    lemma_lower_concat(before + "(R)"@, after);
    lemma_lower_concat(before, "(C)"@);
    lemma_lower_concat(before + "(C)"@, after);
    lemma_lower_concat(before, " "@);
    lemma_lower_concat(before + " "@, after);
    let b = lower_text(before);
    let a = lower_text(after);
    assert(!b.contains('(')) by {
        if b.contains('(') {
            let i = choose|i: int| 0 <= i < b.len() && b[i] == '(';
            assert(ascii_lower(before[i]) == '(');
            assert(before[i] == '(');
        }
    }
    assert(!a.contains('(')) by {
        if a.contains('(') {
            let i = choose|i: int| 0 <= i < a.len() && a[i] == '(';
            assert(ascii_lower(after[i]) == '(');
            assert(after[i] == '(');
        }
    }
    law_decorations_are_blanks(b, 0, a);
    law_decorations_are_blanks(b, 1, a);
    law_decorations_are_blanks(b, 2, a);
}

// ---------------------------------------------------------------------------
// Families of targets
// ---------------------------------------------------------------------------

/// A target written in capitals belongs to the family of the same target in
/// small letters.
pub proof fn law_case_of_targets(gfx: Seq<char>)
    requires
        is_ascii_chars(gfx),
    ensures
        family_verdict(gfx) == lowered_family(lower_text(gfx)),
        family_verdict(gfx) == family_verdict(lower_text(gfx)),
{
    lemma_lower_twice(gfx);
}

/// The table decides only on the two families, and there only by the digit that
/// follows.
pub proof fn law_families_are_decided_by_a_digit(g: Seq<char>)
    ensures
        lowered_family(g) is Some <==> g.len() >= 7 && is_digit(g[6]) && ("gfx110"@.is_prefix_of(g)
            || "gfx115"@.is_prefix_of(g)),
        lowered_family(g) == Some(true) <==> g.len() >= 7 && is_digit(g[6]) && (
        "gfx115"@.is_prefix_of(g) || "gfx110"@.is_prefix_of(g) && g[6] >= '3'),
{
    reveal_strlit("gfx110");
    reveal_strlit("gfx115");
    law_prefix(g, "gfx110"@);
    law_prefix(g, "gfx115"@);
    if g.len() >= 7 {
        assert(g.skip(6)[0] == g[6]);
    }
    if begins_with(g, "gfx110"@) {
        assert(g.subrange(0, 6)[5] == g[5]);
        assert("gfx110"@[5] == '0');
    }
    if begins_with(g, "gfx115"@) {
        assert(g.subrange(0, 6)[5] == g[5]);
        assert("gfx115"@[5] == '5');
    }
}

/// The model digit of a target is the digit right behind the prefix; without the
/// prefix, or without a digit there, there is none.
pub proof fn law_model_digit_is_read(prefix: Seq<char>, digit: int, suffix: Seq<char>, g: Seq<char>)
    requires
        0 <= digit < 10,
    ensures
        model_digit(prefix + seq![digits()[digit]] + suffix, prefix) == Some(digit as u32),
        model_digit(g, prefix) is Some ==> prefix.is_prefix_of(g) && g.len() > prefix.len()
            && digits().contains(g[prefix.len() as int]),
{
    let c = digits()[digit];
    let gfx = prefix + seq![c] + suffix;
    law_after_prefix(prefix, seq![c] + suffix);
    assert(gfx =~= prefix + (seq![c] + suffix));
    law_prefix(g, prefix);
    if model_digit(g, prefix) is Some {
        let rest = g.skip(prefix.len() as int);
        assert(rest[0] == g[prefix.len() as int]);
        assert(digits()[rest[0] as int - '0' as int] == rest[0]);
    }
}

} // verus!
