//! The order of texts, and sorting by it.

use vstd::prelude::*;
use vstd::relations::{sorted_by, total_ordering};
use vstd::seq_lib::lemma_sorted_unique;

use crate::text::{chars_of, texts};

verus! {

/// Whether `a` comes before `b` or equals it, character by character. This is
/// the order of `str`, whose bytes in UTF-8 are ordered as the characters are.
pub open spec fn not_after(a: Seq<char>, b: Seq<char>) -> bool
    decreases a.len(),
{
    if a.len() == 0 {
        true
    } else if b.len() == 0 {
        false
    } else if a[0] == b[0] {
        not_after(a.skip(1), b.skip(1))
    } else {
        a[0] < b[0]
    }
}

proof fn lemma_reflexive(a: Seq<char>)
    ensures
        not_after(a, a),
    decreases a.len(),
{
    if a.len() > 0 {
        lemma_reflexive(a.skip(1));
    }
}

proof fn lemma_antisymmetric(a: Seq<char>, b: Seq<char>)
    requires
        not_after(a, b),
        not_after(b, a),
    ensures
        a == b,
    decreases a.len(),
{
    if a.len() > 0 && b.len() > 0 {
        lemma_antisymmetric(a.skip(1), b.skip(1));
        assert(a =~= seq![a[0]] + a.skip(1));
        assert(b =~= seq![b[0]] + b.skip(1));
    } else {
        assert(a =~= b);
    }
}

proof fn lemma_transitive(a: Seq<char>, b: Seq<char>, c: Seq<char>)
    requires
        not_after(a, b),
        not_after(b, c),
    ensures
        not_after(a, c),
    decreases a.len(),
{
    if a.len() > 0 && b.len() > 0 && c.len() > 0 && a[0] == b[0] && b[0] == c[0] {
        lemma_transitive(a.skip(1), b.skip(1), c.skip(1));
    }
}

proof fn lemma_connected(a: Seq<char>, b: Seq<char>)
    ensures
        not_after(a, b) || not_after(b, a),
    decreases a.len(),
{
    if a.len() > 0 && b.len() > 0 && a[0] == b[0] {
        lemma_connected(a.skip(1), b.skip(1));
    }
}

/// The order of texts, as a relation.
pub open spec fn text_order() -> spec_fn(Seq<char>, Seq<char>) -> bool {
    |a: Seq<char>, b: Seq<char>| not_after(a, b)
}

/// The order of texts is total.
pub proof fn lemma_text_order()
    ensures
        total_ordering(text_order()),
{
    let leq = text_order();
    assert forall|a: Seq<char>| #[trigger] leq(a, a) by {
        lemma_reflexive(a);
    }
    assert forall|a: Seq<char>, b: Seq<char>| #[trigger] leq(a, b) && #[trigger] leq(b, a) implies a
        == b by {
        lemma_antisymmetric(a, b);
    }
    assert forall|a: Seq<char>, b: Seq<char>, c: Seq<char>| #[trigger]
        leq(a, b) && #[trigger] leq(b, c) implies leq(a, c) by {
        lemma_transitive(a, b, c);
    }
    assert forall|a: Seq<char>, b: Seq<char>| #[trigger] leq(a, b) || #[trigger] leq(b, a) by {
        lemma_connected(a, b);
    }
}

/// The texts of `s` in order.
pub open spec fn in_order(s: Seq<Seq<char>>) -> Seq<Seq<char>> {
    s.sort_by(text_order())
}

/// Whether `a` comes before `b` or equals it.
pub fn comes_first(a: &str, b: &str) -> (r: bool)
    ensures
        r == not_after(a@, b@),
{
    let x = chars_of(a);
    let y = chars_of(b);
    let n: usize = x.len();
    let m: usize = y.len();
    let mut i: usize = 0;
    assert(a@.skip(0) =~= a@ && b@.skip(0) =~= b@);
    while i < n
        invariant
            x@ == a@,
            y@ == b@,
            n == a@.len(),
            m == b@.len(),
            i <= n,
            i <= m,
            not_after(a@, b@) == not_after(a@.skip(i as int), b@.skip(i as int)),
        decreases n - i,
    {
        if i == m {
            return false;
        }
        if x[i] != y[i] {
            return x[i] < y[i];
        }
        assert(a@.skip(i as int).skip(1) =~= a@.skip(i + 1));
        assert(b@.skip(i as int).skip(1) =~= b@.skip(i + 1));
        i += 1;
    }
    true
}

/// Where `s` belongs in a sorted vector: behind all that come before it.
fn place_of(sorted: &Vec<String>, s: &str) -> (r: usize)
    requires
        sorted_by(texts(sorted@), text_order()),
    ensures
        r <= sorted@.len(),
        forall|j: int| 0 <= j < r ==> not_after(#[trigger] texts(sorted@)[j], s@),
        forall|j: int| r <= j < sorted@.len() ==> not_after(s@, #[trigger] texts(sorted@)[j]),
{
    let n: usize = sorted.len();
    let mut i: usize = 0;
    while i < n
        invariant
            n == sorted@.len(),
            i <= n,
            sorted_by(texts(sorted@), text_order()),
            forall|j: int| 0 <= j < i ==> not_after(#[trigger] texts(sorted@)[j], s@),
        decreases n - i,
    {
        if !comes_first(sorted[i].as_str(), s) {
            proof {
                let all = texts(sorted@);
                lemma_connected(all[i as int], s@);
                assert forall|j: int| i <= j < n implies not_after(s@, #[trigger] all[j]) by {
                    if j > i {
                        assert(text_order()(all[i as int], all[j]));
                        lemma_transitive(s@, all[i as int], all[j]);
                    }
                }
            }
            return i;
        }
        i += 1;
    }
    i
}

/// The strings in order.
pub fn sort(items: Vec<String>) -> (r: Vec<String>)
    ensures
        texts(r@) == in_order(texts(items@)),
{
    let n: usize = items.len();
    let mut out: Vec<String> = Vec::new();
    let mut i: usize = 0;
    let ghost all = texts(items@);
    proof {
        vstd::seq_lib::to_multiset_len(all.take(0));
        assert(texts(out@) =~= all.take(0));
    }
    while i < n
        invariant
            n == items@.len(),
            i <= n,
            all == texts(items@),
            sorted_by(texts(out@), text_order()),
            texts(out@).to_multiset() == all.take(i as int).to_multiset(),
        decreases n - i,
    {
        let item = items[i].clone();
        let at: usize = place_of(&out, item.as_str());
        let ghost before = texts(out@);
        out.insert(at, item);
        proof {
            assert(texts(out@) =~= before.insert(at as int, item@));
            vstd::seq_lib::to_multiset_insert(before, at as int, item@);
            assert(all.take(i + 1) =~= all.take(i as int).push(item@));
            vstd::seq_lib::to_multiset_build(all.take(i as int), item@);
            let now = texts(out@);
            assert forall|j: int, k: int| 0 <= j < k < now.len() implies #[trigger] text_order()(
                now[j],
                now[k],
            ) by {
                if k < at {
                    assert(text_order()(before[j], before[k]));
                } else if k == at {
                    assert(not_after(before[j], item@));
                } else if j < at {
                    assert(text_order()(before[j], before[k - 1]));
                } else if j == at {
                    assert(not_after(item@, before[k - 1]));
                } else {
                    assert(text_order()(before[j - 1], before[k - 1]));
                }
            }
        }
        i += 1;
    }
    proof {
        assert(all.take(n as int) =~= all);
        lemma_text_order();
        all.lemma_sort_by_ensures(text_order());
        lemma_sorted_unique(texts(out@), in_order(all), text_order());
    }
    out
}

} // verus!
