//! A map from parameter names to values, kept as a list of pairs with
//! distinct names: the algorithm selector's record of what the user typed.

use vstd::prelude::*;
use crate::text::str_eq;

verus! {

/// No two pairs share a key.
pub open spec fn keys_distinct(s: Seq<(Seq<char>, Seq<char>)>) -> bool {
    forall|i: int, j: int|
        0 <= i < s.len() && 0 <= j < s.len() && i != j ==> #[trigger] s[i].0 != #[trigger] s[j].0
}

/// Some pair has the key.
pub open spec fn has_key(s: Seq<(Seq<char>, Seq<char>)>, k: Seq<char>) -> bool {
    exists|i: int| 0 <= i < s.len() && #[trigger] s[i].0 == k
}

/// The map that a list of pairs with distinct keys stands for.
pub open spec fn pairs_map(s: Seq<(Seq<char>, Seq<char>)>) -> Map<Seq<char>, Seq<char>> {
    Map::new(
        |k: Seq<char>| has_key(s, k),
        |k: Seq<char>| s[choose|i: int| 0 <= i < s.len() && #[trigger] s[i].0 == k].1,
    )
}

/// A pair of a list with distinct keys is an entry of its map.
pub proof fn lemma_pairs_map_at(s: Seq<(Seq<char>, Seq<char>)>, i: int)
    requires
        keys_distinct(s),
        0 <= i < s.len(),
    ensures
        pairs_map(s).contains_key(s[i].0),
        pairs_map(s)[s[i].0] == s[i].1,
{
    assert(has_key(s, s[i].0));
    let j = choose|j: int| 0 <= j < s.len() && #[trigger] s[j].0 == s[i].0;
    assert(s[j].0 == s[i].0);
}

/// Putting `(k, v)` at index `at` of a list with distinct keys, where `at`
/// holds key `k` already or is one past the end and `k` is new, keeps the
/// keys distinct and inserts `k -> v` into the map.
pub proof fn lemma_pairs_map_put(
    s: Seq<(Seq<char>, Seq<char>)>,
    t: Seq<(Seq<char>, Seq<char>)>,
    at: int,
    k: Seq<char>,
    v: Seq<char>,
)
    requires
        keys_distinct(s),
        0 <= at <= s.len(),
        at < s.len() ==> s[at].0 == k && t == s.update(at, (k, v)),
        at == s.len() ==> !has_key(s, k) && t == s.push((k, v)),
    ensures
        keys_distinct(t),
        pairs_map(t) == pairs_map(s).insert(k, v),
{
    assert(t.len() == s.len() || t.len() == s.len() + 1);
    assert(forall|j: int| 0 <= j < s.len() && j != at ==> t[j] == s[j]);
    assert(t[at] == (k, v));
    assert(keys_distinct(t)) by {
        assert forall|i: int, j: int|
            0 <= i < t.len() && 0 <= j < t.len() && i != j implies #[trigger] t[i].0 != #[trigger] t[j].0 by {
            if i == at {
                if at < s.len() {
                    assert(s[j].0 != s[at].0);
                } else {
                    assert(s[j].0 == t[j].0);
                }
            } else if j == at {
                if at < s.len() {
                    assert(s[i].0 != s[at].0);
                } else {
                    assert(s[i].0 == t[i].0);
                }
            } else {
                assert(s[i].0 != s[j].0);
            }
        }
    }
    lemma_pairs_map_at(t, at);
    assert forall|key: Seq<char>| #[trigger] has_key(t, key) == (has_key(s, key) || key == k) by {
        if has_key(s, key) {
            let j = choose|j: int| 0 <= j < s.len() && #[trigger] s[j].0 == key;
            if j != at {
                assert(t[j].0 == key);
            }
        }
        if has_key(t, key) {
            let j = choose|j: int| 0 <= j < t.len() && #[trigger] t[j].0 == key;
            if j != at {
                assert(s[j].0 == key);
            }
        }
    }
    assert forall|key: Seq<char>| has_key(t, key) && key != k implies pairs_map(t)[key]
        == pairs_map(s)[key] by {
        let j = choose|j: int| 0 <= j < t.len() && #[trigger] t[j].0 == key;
        lemma_pairs_map_at(t, j);
        lemma_pairs_map_at(s, j);
    }
    assert(pairs_map(t) =~= pairs_map(s).insert(k, v));
}

/// Names mapped to values, with the names kept in the order they were
/// first given.
#[derive(Debug)]
pub struct ParamValues {
    entries: Vec<(String, String)>,
}

impl ParamValues {
    /// The pairs, in order.
    pub closed spec fn pairs(self) -> Seq<(Seq<char>, Seq<char>)> {
        self.entries.deep_view()
    }

    #[verifier::type_invariant]
    spec fn inv(self) -> bool {
        keys_distinct(self.pairs())
    }

}

impl View for ParamValues {
    type V = Map<Seq<char>, Seq<char>>;

    open spec fn view(&self) -> Map<Seq<char>, Seq<char>> {
        pairs_map(self.pairs())
    }
}

impl ParamValues {
    /// No names.
    pub fn new() -> (r: ParamValues)
        ensures
            r@ == Map::<Seq<char>, Seq<char>>::empty(),
            r.pairs() == Seq::<(Seq<char>, Seq<char>)>::empty(),
    {
        let r = ParamValues { entries: Vec::new() };
        assert(r.pairs() =~= Seq::<(Seq<char>, Seq<char>)>::empty());
        assert(r@ =~= Map::<Seq<char>, Seq<char>>::empty());
        r
    }

    /// The value given to `name`, if any.
    pub fn get(&self, name: &str) -> (r: Option<String>)
        ensures
            r.deep_view() == if self@.contains_key(name@) {
                Some(self@[name@])
            } else {
                None::<Seq<char>>
            },
    {
        proof {
            use_type_invariant(self);
        }
        match Self::index_of_in(&self.entries, name) {
            Some(i) => {
                proof {
                    lemma_pairs_map_at(self.pairs(), i as int);
                }
                Some(self.entries[i].1.clone())
            },
            None => None,
        }
    }

    /// Gives `value` to `name`, in place of any value it had.
    pub fn insert(&mut self, name: String, value: String)
        ensures
            final(self)@ == old(self)@.insert(name@, value@),
            old(self)@.contains_key(name@) ==> final(self).pairs().len() == old(self).pairs().len(),
            !old(self)@.contains_key(name@) ==> final(self).pairs() == old(self).pairs().push(
                (name@, value@),
            ),
    {
        proof {
            use_type_invariant(&*self);
        }
        let ghost s = self.pairs();
        let mut entries = Vec::new();
        std::mem::swap(&mut entries, &mut self.entries);
        assert(entries.deep_view() == s);
        let ghost k = name@;
        let ghost v = value@;
        let ghost at: int;
        match Self::index_of_in(&entries, name.as_str()) {
            Some(i) => {
                entries.set(i, (name, value));
                proof {
                    at = i as int;
                }
            },
            None => {
                entries.push((name, value));
                proof {
                    at = s.len() as int;
                }
            },
        }
        proof {
            let t = entries.deep_view();
            if at < s.len() {
                assert(t =~= s.update(at, (k, v)));
            } else {
                assert(t =~= s.push((k, v)));
            }
            lemma_pairs_map_put(s, t, at, k, v);
        }
        self.entries = entries;
    }

    fn index_of_in(entries: &Vec<(String, String)>, name: &str) -> (r: Option<usize>)
        ensures
            match r {
                Some(i) => i < entries.len() && entries.deep_view()[i as int].0 == name@,
                None => !has_key(entries.deep_view(), name@),
            },
    {
        let mut i: usize = 0;
        while i < entries.len()
            invariant
                i <= entries.len(),
                forall|j: int| 0 <= j < i ==> #[trigger] entries.deep_view()[j].0 != name@,
            decreases entries.len() - i,
        {
            if str_eq(entries[i].0.as_str(), name) {
                return Some(i);
            }
            i = i + 1;
        }
        None
    }

    /// The pairs, as a list; no name occurs twice in it.
    pub fn to_pairs(&self) -> (r: Vec<(String, String)>)
        ensures
            r.deep_view() == self.pairs(),
            keys_distinct(r.deep_view()),
            pairs_map(r.deep_view()) == self@,
    {
        proof {
            use_type_invariant(self);
        }
        let mut r: Vec<(String, String)> = Vec::new();
        for i in 0..self.entries.len()
            invariant
                r.len() == i,
                forall|j: int| 0 <= j < i ==> (#[trigger] r@[j]).deep_view() == self.pairs()[j],
        {
            let pair = (self.entries[i].0.clone(), self.entries[i].1.clone());
            assert(pair.deep_view() == self.pairs()[i as int]);
            r.push(pair);
        }
        assert(r.deep_view() =~= self.pairs());
        r
    }
}

} // verus!
