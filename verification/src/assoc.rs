use vstd::prelude::*;

verus! {

/// The finite map that an association vector denotes: later pairs win,
/// though under [`unique_keys`] every key occurs at most once.
pub open spec fn as_map<V>(s: Seq<(String, V)>) -> Map<Seq<char>, V>
    decreases s.len(),
{
    if s.len() == 0 {
        Map::empty()
    } else {
        as_map(s.drop_last()).insert(s.last().0@, s.last().1)
    }
}

/// No two pairs carry the same key.
pub open spec fn unique_keys<V>(s: Seq<(String, V)>) -> bool {
    forall|i: int, j: int| 0 <= i < j < s.len() ==> s[i].0@ != s[j].0@
}

/// A key is in the denoted map exactly when some pair carries it.
pub proof fn lemma_as_map_domain<V>(s: Seq<(String, V)>, k: Seq<char>)
    ensures
        as_map(s).contains_key(k) <==> exists|i: int| 0 <= i < s.len() && s[i].0@ == k,
    decreases s.len(),
{
    if s.len() > 0 {
        lemma_as_map_domain(s.drop_last(), k);
        if as_map(s).contains_key(k) {
            if s.last().0@ != k {
                let i = choose|i: int| 0 <= i < s.drop_last().len() && s.drop_last()[i].0@ == k;
                assert(s[i].0@ == k);
            }
        }
        if exists|i: int| 0 <= i < s.len() && s[i].0@ == k {
            let i = choose|i: int| 0 <= i < s.len() && s[i].0@ == k;
            if i < s.len() - 1 {
                assert(s.drop_last()[i].0@ == k);
            }
        }
    }
}

/// Under unique keys, the denoted map sends the key of the pair at `i`
/// to that pair's value.
pub proof fn lemma_as_map_at_index<V>(s: Seq<(String, V)>, i: int)
    requires
        unique_keys(s),
        0 <= i < s.len(),
    ensures
        as_map(s).contains_key(s[i].0@),
        as_map(s)[s[i].0@] == s[i].1,
    decreases s.len(),
{
    if i == s.len() - 1 {
    } else {
        assert(unique_keys(s.drop_last()));
        lemma_as_map_at_index(s.drop_last(), i);
        assert(s[i].0@ != s.last().0@);
    }
}

/// Appending a pair with a fresh key inserts it into the denoted map.
pub proof fn lemma_as_map_push<V>(s: Seq<(String, V)>, p: (String, V))
    ensures
        as_map(s.push(p)) == as_map(s).insert(p.0@, p.1),
{
    assert(s.push(p).drop_last() =~= s);
    assert(s.push(p).last() == p);
}

/// Removing the pair at `i` removes its key from the denoted map, when
/// keys are unique.
pub proof fn lemma_as_map_remove<V>(s: Seq<(String, V)>, i: int)
    requires
        unique_keys(s),
        0 <= i < s.len(),
    ensures
        as_map(s.remove(i)) == as_map(s).remove(s[i].0@),
    decreases s.len(),
{
    if i == s.len() - 1 {
        assert(s.remove(i) =~= s.drop_last());
        lemma_as_map_domain(s.drop_last(), s[i].0@);
        assert(forall|j: int| 0 <= j < s.drop_last().len() ==> s.drop_last()[j].0@ != s[i].0@);
        assert(!as_map(s.drop_last()).contains_key(s[i].0@));
        assert(as_map(s).remove(s[i].0@) =~= as_map(s.drop_last()));
    } else {
        assert(unique_keys(s.drop_last()));
        lemma_as_map_remove(s.drop_last(), i);
        assert(s.remove(i).drop_last() =~= s.drop_last().remove(i));
        assert(s.remove(i).last() == s.last());
        assert(s[i].0@ != s.last().0@);
        assert(as_map(s.remove(i)) =~= as_map(s).remove(s[i].0@));
    }
}

/// Map from string keys to values of type `V`, stored as a vector of
/// pairs whose keys are pairwise distinct.
pub struct AssocVec<V> {
    pairs: Vec<(String, V)>,
}

impl<V> View for AssocVec<V> {
    type V = Map<Seq<char>, V>;

    closed spec fn view(&self) -> Map<Seq<char>, V> {
        as_map(self.pairs@)
    }
}

impl<V> AssocVec<V> {
    /// Well-formed: no key is stored twice.
    pub closed spec fn wf(&self) -> bool {
        unique_keys(self.pairs@)
    }

    /// Creates an empty map.
    pub fn new() -> (m: AssocVec<V>)
        ensures
            m.wf(),
            m@ == Map::<Seq<char>, V>::empty(),
    {
        AssocVec { pairs: Vec::new() }
    }

    /// Index of the pair carrying `key`, if any.
    fn index_of(&self, key: &String) -> (r: Option<usize>)
        ensures
            match r {
                Some(i) => i < self.pairs@.len() && self.pairs@[i as int].0@ == key@,
                None => forall|i: int| 0 <= i < self.pairs@.len() ==> self.pairs@[i].0@ != key@,
            },
    {
        let n = self.pairs.len();
        let mut i: usize = 0;
        while i < n
            invariant
                n == self.pairs@.len(),
                i <= n,
                forall|j: int| 0 <= j < i ==> self.pairs@[j].0@ != key@,
            decreases n - i,
        {
            let p = &self.pairs[i];
            if p.0 == *key {
                return Some(i);
            }
            i = i + 1;
        }
        None
    }

    /// Whether `key` is present.
    pub fn contains_key(&self, key: &String) -> (r: bool)
        ensures
            r == self@.contains_key(key@),
    {
        proof {
            lemma_as_map_domain(self.pairs@, key@);
        }
        match self.index_of(key) {
            Some(_) => true,
            None => false,
        }
    }

    /// Removes `key` and returns its value, or returns `None` and leaves
    /// the map unchanged when the key is absent.
    pub fn remove(&mut self, key: &String) -> (r: Option<V>)
        requires
            old(self).wf(),
        ensures
            final(self).wf(),
            match r {
                Some(v) => old(self)@.contains_key(key@) && v == old(self)@[key@]
                    && final(self)@ == old(self)@.remove(key@),
                None => !old(self)@.contains_key(key@) && final(self)@ == old(self)@,
            },
    {
        proof {
            lemma_as_map_domain(self.pairs@, key@);
        }
        match self.index_of(key) {
            Some(i) => {
                proof {
                    lemma_as_map_at_index(self.pairs@, i as int);
                    lemma_as_map_remove(self.pairs@, i as int);
                }
                let p = self.pairs.remove(i);
                proof {
                    assert(unique_keys(self.pairs@)) by {
                        assert(forall|x: int, y: int|
                            0 <= x < y < self.pairs@.len() ==> self.pairs@[x].0@
                                != self.pairs@[y].0@) by {
                            assert(forall|x: int|
                                0 <= x < self.pairs@.len() ==> #[trigger] self.pairs@[x] == if x
                                    < i {
                                    old(self).pairs@[x]
                                } else {
                                    old(self).pairs@[x + 1]
                                });
                        }
                    }
                }
                Some(p.1)
            },
            None => None,
        }
    }

    /// Inserts a key that is not yet present.
    pub fn insert(&mut self, key: String, value: V)
        requires
            old(self).wf(),
            !old(self)@.contains_key(key@),
        ensures
            final(self).wf(),
            final(self)@ == old(self)@.insert(key@, value),
    {
        proof {
            lemma_as_map_domain(self.pairs@, key@);
            lemma_as_map_push(self.pairs@, (key, value));
        }
        let ghost before = self.pairs@;
        self.pairs.push((key, value));
        proof {
            assert(self.pairs@ =~= before.push((key, value)));
            assert(forall|x: int, y: int|
                0 <= x < y < self.pairs@.len() ==> self.pairs@[x].0@ != self.pairs@[y].0@);
        }
    }

    /// Number of stored pairs.
    pub fn len(&self) -> (n: usize)
        requires
            self.wf(),
        ensures
            n == self@.len(),
    {
        proof {
            lemma_as_map_len(self.pairs@);
        }
        self.pairs.len()
    }
}

/// Under unique keys, the denoted map has one entry per stored pair.
pub proof fn lemma_as_map_len<V>(s: Seq<(String, V)>)
    requires
        unique_keys(s),
    ensures
        as_map(s).dom().finite(),
        as_map(s).len() == s.len(),
    decreases s.len(),
{
    if s.len() > 0 {
        assert(unique_keys(s.drop_last()));
        lemma_as_map_len(s.drop_last());
        lemma_as_map_domain(s.drop_last(), s.last().0@);
    }
}

} // verus!
