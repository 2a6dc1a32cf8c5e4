//! Template variables: a map from names to values that keeps the order in
//! which names were first set.
use vstd::prelude::*;

verus! {

/// No name occurs twice among the entries.
pub open spec fn keys_unique(e: Seq<(String, String)>) -> bool {
    forall|i: int, j: int| 0 <= i < j < e.len() ==> e[i].0@ != e[j].0@
}

/// The map that a list of entries stands for; a later entry for a name
/// overrides an earlier one.
pub open spec fn pairs_map(e: Seq<(String, String)>) -> Map<Seq<char>, Seq<char>>
    decreases e.len(),
{
    if e.len() == 0 {
        Map::empty()
    } else {
        pairs_map(e.drop_last()).insert(e.last().0@, e.last().1@)
    }
}

/// The entries as pairs of character sequences.
pub open spec fn pairs_view(e: Seq<(String, String)>) -> Seq<(Seq<char>, Seq<char>)> {
    e.map_values(|p: (String, String)| (p.0@, p.1@))
}

proof fn lemma_pairs_map(e: Seq<(String, String)>)
    requires
        keys_unique(e),
    ensures
        forall|k: Seq<char>|
            #[trigger] pairs_map(e).dom().contains(k) <==> exists|i: int|
                0 <= i < e.len() && e[i].0@ == k,
        forall|i: int| 0 <= i < e.len() ==> #[trigger] pairs_map(e)[e[i].0@] == e[i].1@,
    decreases e.len(),
{
    if e.len() > 0 {
        let d = e.drop_last();
        assert(keys_unique(d));
        lemma_pairs_map(d);
        assert forall|k: Seq<char>|
            #[trigger] pairs_map(e).dom().contains(k) <==> exists|i: int|
                0 <= i < e.len() && e[i].0@ == k by {
            if pairs_map(e).dom().contains(k) {
                if k == e.last().0@ {
                    assert(e[e.len() - 1].0@ == k);
                } else {
                    assert(pairs_map(d).dom().contains(k));
                    let i = choose|i: int| 0 <= i < d.len() && d[i].0@ == k;
                    assert(e[i] == d[i]);
                }
            }
            if exists|i: int| 0 <= i < e.len() && e[i].0@ == k {
                let i = choose|i: int| 0 <= i < e.len() && e[i].0@ == k;
                if i < e.len() - 1 {
                    assert(e[i] == d[i]);
                    assert(pairs_map(d).dom().contains(k));
                }
            }
        }
        assert forall|i: int| 0 <= i < e.len() implies #[trigger] pairs_map(e)[e[i].0@]
            == e[i].1@ by {
            if i < e.len() - 1 {
                assert(e[i] == d[i]);
                assert(e[i].0@ != e[e.len() - 1].0@);
                assert(pairs_map(d)[d[i].0@] == d[i].1@);
            }
        }
    }
}

/// A map from variable names to values, kept as a list of entries in which
/// no name occurs twice.
pub struct Variables {
    entries: Vec<(String, String)>,
}

impl Variables {
    #[verifier::type_invariant]
    spec fn well_formed(self) -> bool {
        keys_unique(self.entries@)
    }

    /// The entries, in the order in which their names were first set.
    pub closed spec fn pairs(self) -> Seq<(Seq<char>, Seq<char>)> {
        pairs_view(self.entries@)
    }

    /// A map with no variables.
    pub fn new() -> (r: Variables)
        ensures
            r@ == Map::<Seq<char>, Seq<char>>::empty(),
            r.pairs().len() == 0,
    {
        Variables { entries: Vec::new() }
    }

    /// The number of variables.
    pub fn len(&self) -> (n: usize)
        ensures
            n == self@.dom().len(),
            n == self.pairs().len(),
    {
        proof {
            use_type_invariant(self);
            lemma_unique_dom_len(self.entries@);
        }
        self.entries.len()
    }

    /// The `i`-th entry, as a name and its value.
    pub fn entry(&self, i: usize) -> (r: (&String, &String))
        requires
            i < self.pairs().len(),
        ensures
            r.0@ == self.pairs()[i as int].0,
            r.1@ == self.pairs()[i as int].1,
            self@.dom().contains(r.0@),
            self@[r.0@] == r.1@,
    {
        proof {
            use_type_invariant(self);
            lemma_pairs_map(self.entries@);
        }
        let p = &self.entries[i];
        assert(self.entries@[i as int].0@ == p.0@);
        (&p.0, &p.1)
    }

    /// Where the entry for `name` stands, if there is one.
    fn position(&self, name: &str) -> (r: Option<usize>)
        ensures
            match r {
                Some(i) => i < self.entries@.len() && self.entries@[i as int].0@ == name@,
                None => forall|j: int|
                    0 <= j < self.entries@.len() ==> self.entries@[j].0@ != name@,
            },
    {
        let n = self.entries.len();
        for i in 0..n
            invariant
                n == self.entries@.len(),
                forall|j: int| 0 <= j < i ==> self.entries@[j].0@ != name@,
        {
            if crate::text::str_eq(self.entries[i].0.as_str(), name) {
                return Some(i);
            }
        }
        None
    }

    /// The value of the variable `name`, if it is set.
    pub fn get(&self, name: &str) -> (r: Option<String>)
        ensures
            r is Some <==> self@.dom().contains(name@),
            r matches Some(v) ==> v@ == self@[name@],
    {
        proof {
            use_type_invariant(self);
            lemma_pairs_map(self.entries@);
        }
        match self.position(name) {
            Some(i) => {
                assert(self.entries@[i as int].0@ == name@);
                Some(self.entries[i].1.clone())
            },
            None => None,
        }
    }

    /// Sets `name` to `value`, replacing the value it had if it was set.
    pub fn insert(&mut self, name: String, value: String)
        ensures
            final(self)@ == old(self)@.insert(name@, value@),
            pairs_after_insert(old(self).pairs(), final(self).pairs(), name@, value@),
    {
        proof {
            use_type_invariant(&*self);
            lemma_pairs_map(self.entries@);
        }
        let n = self.entries.len();
        let found = match self.position(name.as_str()) {
            Some(i) => i,
            None => n,
        };
        let ghost old_entries = self.entries@;
        let ghost pair = (name, value);
        if found < n {
            let ghost e = old_entries.update(found as int, pair);
            proof {
                assert(keys_unique(e)) by {
                    assert forall|i: int, j: int| 0 <= i < j < e.len() implies e[i].0@
                        != e[j].0@ by {
                        if i != found as int && j != found as int {
                            assert(e[i] == old_entries[i] && e[j] == old_entries[j]);
                        } else if i == found as int {
                            assert(e[j] == old_entries[j]);
                        } else {
                            assert(e[i] == old_entries[i]);
                        }
                    }
                }
                lemma_pairs_map(e);
                lemma_pairs_map(old_entries);
                let m = pairs_map(old_entries).insert(name@, value@);
                assert forall|k: Seq<char>| #[trigger] pairs_map(e).dom().contains(k) implies m.dom().contains(k)
                    && pairs_map(e)[k] == m[k] by {
                    let i = choose|i: int| 0 <= i < e.len() && e[i].0@ == k;
                    if i != found as int {
                        assert(e[i] == old_entries[i]);
                        assert(pairs_map(old_entries)[old_entries[i].0@] == old_entries[i].1@);
                        assert(pairs_map(old_entries).dom().contains(k));
                    } else {
                        assert(pairs_map(e)[e[i].0@] == e[i].1@);
                    }
                }
                assert forall|k: Seq<char>| #[trigger] m.dom().contains(k) implies pairs_map(e).dom().contains(k) by {
                    if k != name@ {
                        assert(pairs_map(old_entries).dom().contains(k));
                        let i = choose|i: int| 0 <= i < old_entries.len() && old_entries[i].0@ == k;
                        assert(e[i] == old_entries[i]);
                    } else {
                        assert(e[found as int].0@ == k);
                    }
                }
                assert(pairs_map(e) =~= m);
                assert(pairs_view(e) =~= pairs_view(old_entries).update(
                    found as int,
                    (name@, value@),
                ));
            }
            let mut entries: Vec<(String, String)> = Vec::new();
            std::mem::swap(&mut entries, &mut self.entries);
            entries.set(found, (name, value));
            self.entries = entries;
        } else {
            proof {
                let e = old_entries.push(pair);
                assert(e.drop_last() =~= old_entries);
                assert(keys_unique(e));
                assert(pairs_view(e) =~= pairs_view(old_entries).push((name@, value@)));
            }
            let mut entries: Vec<(String, String)> = Vec::new();
            std::mem::swap(&mut entries, &mut self.entries);
            entries.push((name, value));
            self.entries = entries;
        }
    }

    /// Sets every variable of `other` in turn, so that where both maps set a
    /// name the value of `other` is kept.
    pub fn extend(&mut self, other: &Variables)
        ensures
            final(self)@ == old(self)@.union_prefer_right(other@),
    {
        proof {
            use_type_invariant(other);
        }
        let n = other.entries.len();
        for i in 0..n
            invariant
                n == other.entries@.len(),
                self@ == old(self)@.union_prefer_right(pairs_map(other.entries@.take(i as int))),
        {
            let k = other.entries[i].0.clone();
            let v = other.entries[i].1.clone();
            self.insert(k, v);
            proof {
                let t = other.entries@.take(i + 1);
                assert(t.drop_last() =~= other.entries@.take(i as int));
                assert(self@ =~= old(self)@.union_prefer_right(pairs_map(t)));
            }
        }
        assert(other.entries@.take(n as int) =~= other.entries@);
    }
}

/// How the entries change when a name is set: its entry is updated in
/// place, or a new entry is added at the end.
pub open spec fn pairs_after_insert(
    before: Seq<(Seq<char>, Seq<char>)>,
    after: Seq<(Seq<char>, Seq<char>)>,
    name: Seq<char>,
    value: Seq<char>,
) -> bool {
    ||| exists|i: int|
        0 <= i < before.len() && before[i].0 == name && after == before.update(i, (name, value))
    ||| (forall|i: int| 0 <= i < before.len() ==> before[i].0 != name) && after == before.push(
        (name, value),
    )
}

proof fn lemma_unique_dom_len(e: Seq<(String, String)>)
    requires
        keys_unique(e),
    ensures
        pairs_map(e).dom().len() == e.len(),
        pairs_map(e).dom().finite(),
    decreases e.len(),
{
    if e.len() > 0 {
        let d = e.drop_last();
        assert(keys_unique(d));
        lemma_unique_dom_len(d);
        lemma_pairs_map(d);
        assert(!pairs_map(d).dom().contains(e.last().0@)) by {
            if pairs_map(d).dom().contains(e.last().0@) {
                let i = choose|i: int| 0 <= i < d.len() && d[i].0@ == e.last().0@;
                assert(e[i] == d[i]);
            }
        }
    }
}

impl View for Variables {
    type V = Map<Seq<char>, Seq<char>>;

    closed spec fn view(&self) -> Map<Seq<char>, Seq<char>> {
        pairs_map(self.entries@)
    }
}

} // verus!
