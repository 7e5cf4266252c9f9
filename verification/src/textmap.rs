//! Maps from text to text.

use vstd::prelude::*;
use vstd::string::*;

use crate::text::{optional, same_text};

verus! {

/// Whether one of the entries has the key `k`.
pub open spec fn has_key(entries: Seq<(String, String)>, k: Seq<char>) -> bool {
    exists|i: int| 0 <= i < entries.len() && (#[trigger] entries[i]).0@ == k
}

/// The position of an entry with the key `k`.
pub open spec fn key_index(entries: Seq<(String, String)>, k: Seq<char>) -> int {
    choose|i: int| 0 <= i < entries.len() && (#[trigger] entries[i]).0@ == k
}

/// What the entries map their keys to.
pub open spec fn entries_map(entries: Seq<(String, String)>) -> Map<Seq<char>, Seq<char>> {
    Map::new(
        |k: Seq<char>| has_key(entries, k),
        |k: Seq<char>| entries[key_index(entries, k)].1@,
    )
}

/// A map from text to text. No key occurs twice.
#[derive(Debug)]
pub struct TextMap {
    entries: Vec<(String, String)>,
}

impl View for TextMap {
    type V = Map<Seq<char>, Seq<char>>;

    closed spec fn view(&self) -> Map<Seq<char>, Seq<char>> {
        entries_map(self.entries@)
    }
}

/// Whether the keys of the entries differ from one another.
pub open spec fn keys_differ(entries: Seq<(String, String)>) -> bool {
    forall|i: int, j: int|
        0 <= i < j < entries.len() ==> (#[trigger] entries[i]).0@ != (#[trigger] entries[j]).0@
}

impl TextMap {
    #[verifier::type_invariant]
    spec fn well_formed(self) -> bool {
        keys_differ(self.entries@)
    }

    /// The map without entries.
    pub fn new() -> (r: Self)
        ensures
            r@ == Map::<Seq<char>, Seq<char>>::empty(),
    {
        let entries: Vec<(String, String)> = Vec::new();
        assert(entries_map(entries@) =~= Map::empty());
        TextMap { entries }
    }

    /// The position of the entry with the key `k`.
    fn position(entries: &Vec<(String, String)>, k: &str) -> (r: Option<usize>)
        ensures
            match r {
                Some(i) => i < entries@.len() && entries@[i as int].0@ == k@,
                None => !has_key(entries@, k@),
            },
    {
        let n: usize = entries.len();
        let mut i: usize = 0;
        while i < n
            invariant
                n == entries@.len(),
                i <= n,
                forall|j: int| 0 <= j < i ==> (#[trigger] entries@[j]).0@ != k@,
            decreases n - i,
        {
            if same_text(entries[i].0.as_str(), k) {
                return Some(i);
            }
            i += 1;
        }
        None
    }

    /// What `k` is mapped to.
    pub fn get(&self, k: &str) -> (r: Option<String>)
        ensures
            optional(r) == (if self@.contains_key(k@) {
                Some(self@[k@])
            } else {
                None
            }),
    {
        proof {
            use_type_invariant(self);
        }
        match Self::position(&self.entries, k) {
            Some(i) => {
                assert(key_index(self.entries@, k@) == i);
                Some(self.entries[i].1.clone())
            },
            None => None,
        }
    }

    /// Maps `k` to `v`, in place of what it was mapped to.
    pub fn insert(&mut self, k: &str, v: String)
        ensures
            final(self)@ == old(self)@.insert(k@, v@),
    {
        proof {
            use_type_invariant(&*self);
        }
        let mut entries: Vec<(String, String)> = Vec::new();
        std::mem::swap(&mut entries, &mut self.entries);
        let ghost before = entries@;
        let ghost mut at: int = 0;
        match Self::position(&entries, k) {
            Some(i) => {
                entries.set(i, (k.to_owned(), v));
                proof {
                    at = i as int;
                }
            },
            None => {
                entries.push((k.to_owned(), v));
                proof {
                    at = before.len() as int;
                }
            },
        }
        proof {
            assert(keys_differ(entries@));
            assert forall|q: Seq<char>| #[trigger]
                has_key(entries@, q) == (q == k@ || has_key(before, q)) by {
                if has_key(before, q) {
                    let j = key_index(before, q);
                    assert(entries@[j].0@ == q);
                }
                if q == k@ {
                    assert(entries@[at].0@ == k@);
                }
                if has_key(entries@, q) && q != k@ {
                    let j = key_index(entries@, q);
                    assert(before[j].0@ == q);
                }
            }
            assert forall|q: Seq<char>| has_key(entries@, q) implies #[trigger] entries_map(
                entries@,
            )[q] == entries_map(before).insert(k@, v@)[q] by {
                let j = key_index(entries@, q);
                if q != k@ {
                    assert(before[j].0@ == q);
                    assert(key_index(before, q) == j);
                }
            }
            assert(entries_map(entries@) =~= entries_map(before).insert(k@, v@));
        }
        self.entries = entries;
    }

    /// The map with the same entries.
    fn copy(&self) -> (r: Self)
        ensures
            r@ == self@,
    {
        proof {
            use_type_invariant(self);
        }
        let n: usize = self.entries.len();
        let mut entries: Vec<(String, String)> = Vec::new();
        let mut i: usize = 0;
        while i < n
            invariant
                n == self.entries@.len(),
                i <= n,
                keys_differ(self.entries@),
                entries@ == self.entries@.take(i as int),
            decreases n - i,
        {
            let entry = (self.entries[i].0.clone(), self.entries[i].1.clone());
            assert(self.entries@.take(i + 1) =~= self.entries@.take(i as int).push(entry));
            entries.push(entry);
            i += 1;
        }
        assert(entries@ =~= self.entries@);
        TextMap { entries }
    }

    /// The entries, each key once.
    pub fn entries(&self) -> (r: &Vec<(String, String)>)
        ensures
            entries_map(r@) == self@,
            keys_differ(r@),
    {
        proof {
            use_type_invariant(self);
        }
        &self.entries
    }
}

impl Clone for TextMap {
    fn clone(&self) -> (r: Self)
        ensures
            r@ == self@,
    {
        self.copy()
    }
}

} // verus!
