//! An association table keyed by strings, viewed as a finite map.
use vstd::prelude::*;

verus! {

/// The map denoted by a list of key/value pairs; a later pair wins over an
/// earlier one with the same key.
pub open spec fn pairs_to_map<V>(s: Seq<(Seq<char>, V)>) -> Map<Seq<char>, V>
    decreases s.len(),
{
    if s.len() == 0 {
        Map::empty()
    } else {
        pairs_to_map(s.drop_last()).insert(s.last().0, s.last().1)
    }
}

/// No key occurs twice in the list.
pub open spec fn keys_unique<V>(s: Seq<(Seq<char>, V)>) -> bool {
    forall|i: int, j: int| 0 <= i < s.len() && 0 <= j < s.len() && i != j ==> s[i].0 != s[j].0
}

pub proof fn lemma_pairs_domain<V>(s: Seq<(Seq<char>, V)>, k: Seq<char>)
    ensures
        pairs_to_map(s).contains_key(k) <==> exists|i: int| 0 <= i < s.len() && s[i].0 == k,
    decreases s.len(),
{
    if s.len() > 0 {
        lemma_pairs_domain(s.drop_last(), k);
        if pairs_to_map(s).contains_key(k) && k != s.last().0 {
            let i = choose|i: int| 0 <= i < s.len() - 1 && s.drop_last()[i].0 == k;
            assert(s[i].0 == k);
        }
        if exists|i: int| 0 <= i < s.len() && s[i].0 == k {
            let i = choose|i: int| 0 <= i < s.len() && s[i].0 == k;
            if i < s.len() - 1 {
                assert(s.drop_last()[i].0 == k);
            }
        }
    }
}

pub proof fn lemma_pairs_index<V>(s: Seq<(Seq<char>, V)>, i: int)
    requires
        keys_unique(s),
        0 <= i < s.len(),
    ensures
        pairs_to_map(s).contains_key(s[i].0),
        pairs_to_map(s)[s[i].0] == s[i].1,
    decreases s.len(),
{
    if i < s.len() - 1 {
        let t = s.drop_last();
        assert(t[i] == s[i]);
        assert(keys_unique(t));
        lemma_pairs_index(t, i);
        assert(s.last().0 != s[i].0);
    }
}

pub proof fn lemma_pairs_empty<V>(s: Seq<(Seq<char>, V)>)
    ensures
        (pairs_to_map(s).dom() =~= Set::empty()) <==> s.len() == 0,
{
    if s.len() > 0 {
        lemma_pairs_domain(s, s[0].0);
        assert(pairs_to_map(s).dom().contains(s[0].0));
    }
}

pub proof fn lemma_pairs_update<V>(s: Seq<(Seq<char>, V)>, i: int, v: V)
    requires
        keys_unique(s),
        0 <= i < s.len(),
    ensures
        keys_unique(s.update(i, (s[i].0, v))),
        pairs_to_map(s.update(i, (s[i].0, v))) =~= pairs_to_map(s).insert(s[i].0, v),
    decreases s.len(),
{
    let u = s.update(i, (s[i].0, v));
    assert(keys_unique(u));
    if i == s.len() - 1 {
        assert(u.drop_last() =~= s.drop_last());
    } else {
        let t = s.drop_last();
        assert(keys_unique(t));
        assert(u.drop_last() =~= t.update(i, (t[i].0, v)));
        lemma_pairs_update(t, i, v);
        assert(s.last().0 != s[i].0);
    }
}

pub proof fn lemma_pairs_remove<V>(s: Seq<(Seq<char>, V)>, i: int)
    requires
        keys_unique(s),
        0 <= i < s.len(),
    ensures
        keys_unique(s.remove(i)),
        pairs_to_map(s.remove(i)) =~= pairs_to_map(s).remove(s[i].0),
    decreases s.len(),
{
    let r = s.remove(i);
    assert(keys_unique(r)) by {
        assert forall|a: int, b: int| 0 <= a < r.len() && 0 <= b < r.len() && a != b
            implies r[a].0 != r[b].0 by {
            let a2 = if a < i { a } else { a + 1 };
            let b2 = if b < i { b } else { b + 1 };
            assert(r[a] == s[a2]);
            assert(r[b] == s[b2]);
        }
    }
    if i == s.len() - 1 {
        assert(r =~= s.drop_last());
        lemma_pairs_domain(r, s[i].0);
        if pairs_to_map(r).contains_key(s[i].0) {
            let j = choose|j: int| 0 <= j < r.len() && r[j].0 == s[i].0;
            assert(r[j] == s[j]);
        }
    } else {
        let t = s.drop_last();
        assert(keys_unique(t));
        assert(r.drop_last() =~= t.remove(i));
        assert(r.last() == s.last());
        lemma_pairs_remove(t, i);
        assert(s.last().0 != s[i].0);
    }
}

pub proof fn lemma_pairs_push<V>(s: Seq<(Seq<char>, V)>, k: Seq<char>, v: V)
    requires
        keys_unique(s),
        !pairs_to_map(s).contains_key(k),
    ensures
        keys_unique(s.push((k, v))),
        pairs_to_map(s.push((k, v))) == pairs_to_map(s).insert(k, v),
{
    let p = s.push((k, v));
    assert(p.drop_last() =~= s);
    assert forall|j: int| 0 <= j < s.len() implies s[j].0 != k by {
        lemma_pairs_domain(s, k);
    }
    assert(keys_unique(p)) by {
        assert forall|a: int, b: int| 0 <= a < p.len() && 0 <= b < p.len() && a != b
            implies p[a].0 != p[b].0 by {
            if a < s.len() && b < s.len() {
                assert(p[a] == s[a] && p[b] == s[b]);
            } else if a < s.len() {
                assert(p[a] == s[a]);
            } else {
                assert(p[b] == s[b]);
            }
        }
    }
}

/// A list with unique keys has as many entries as its map has keys, and its
/// keys are exactly the map's keys.
pub proof fn lemma_pairs_keys<V>(s: Seq<(Seq<char>, V)>)
    requires
        keys_unique(s),
    ensures
        pairs_to_map(s).dom().finite(),
        s.map_values(|e: (Seq<char>, V)| e.0).len() == pairs_to_map(s).dom().len(),
        forall|k: Seq<char>|
            pairs_to_map(s).contains_key(k) <==> s.map_values(|e: (Seq<char>, V)| e.0).contains(k),
    decreases s.len(),
{
    let ks = s.map_values(|e: (Seq<char>, V)| e.0);
    assert forall|k: Seq<char>| pairs_to_map(s).contains_key(k) <==> ks.contains(k) by {
        lemma_pairs_domain(s, k);
        if ks.contains(k) {
            let i = choose|i: int| 0 <= i < ks.len() && ks[i] == k;
            assert(s[i].0 == k);
        }
        if pairs_to_map(s).contains_key(k) {
            let i = choose|i: int| 0 <= i < s.len() && s[i].0 == k;
            assert(ks[i] == k);
        }
    }
    if s.len() > 0 {
        let t = s.drop_last();
        assert(keys_unique(t));
        lemma_pairs_keys(t);
        lemma_pairs_domain(t, s.last().0);
        if pairs_to_map(t).contains_key(s.last().0) {
            let i = choose|i: int| 0 <= i < t.len() && t[i].0 == s.last().0;
            assert(t[i] == s[i]);
            assert(s[i].0 == s[s.len() - 1].0);
        }
        assert(pairs_to_map(s).dom() =~= pairs_to_map(t).dom().insert(s.last().0));
    } else {
        assert(pairs_to_map(s).dom() =~= Set::<Seq<char>>::empty());
    }
}

/// A table of values keyed by strings, with each key present at most once.
pub struct Table<V: DeepView> {
    entries: Vec<(String, V)>,
}

impl<V: DeepView> Table<V> {
    /// The entries with their keys and values seen abstractly.
    closed spec fn pairs(&self) -> Seq<(Seq<char>, V::V)> {
        Self::pairs_of(self.entries@)
    }

    closed spec fn pairs_of(entries: Seq<(String, V)>) -> Seq<(Seq<char>, V::V)> {
        entries.map_values(|e: (String, V)| (e.0@, e.1.deep_view()))
    }

    #[verifier::type_invariant]
    closed spec fn wf(&self) -> bool {
        keys_unique(self.pairs())
    }

    /// What the table holds: each key with the abstract view of its value.
    pub closed spec fn map(&self) -> Map<Seq<char>, V::V> {
        pairs_to_map(self.pairs())
    }

    pub fn new() -> (t: Self)
        ensures
            t.map() == Map::<Seq<char>, V::V>::empty(),
    {
        let t = Table { entries: Vec::new() };
        assert(t.pairs() =~= Seq::empty());
        t
    }

    /// The position of `key` among the entries, if it is present.
    fn find(&self, key: &String) -> (r: Option<usize>)
        ensures
            match r {
                Some(i) => i < self.entries.len() && self.entries@[i as int].0@ == key@,
                None => !self.map().contains_key(key@),
            },
    {
        let mut i: usize = 0;
        while i < self.entries.len()
            invariant
                i <= self.entries.len(),
                forall|j: int| 0 <= j < i ==> self.entries@[j].0@ != key@,
            decreases self.entries.len() - i,
        {
            if self.entries[i].0 == *key {
                return Some(i);
            }
            i = i + 1;
        }
        proof {
            lemma_pairs_domain(self.pairs(), key@);
            if self.map().contains_key(key@) {
                let j = choose|j: int| 0 <= j < self.pairs().len() && self.pairs()[j].0 == key@;
                assert(self.entries@[j].0@ == key@);
            }
        }
        None
    }

    pub fn get(&self, key: &String) -> (r: Option<&V>)
        ensures
            match r {
                Some(v) => self.map().contains_key(key@) && self.map()[key@] == v.deep_view(),
                None => !self.map().contains_key(key@),
            },
    {
        proof {
            use_type_invariant(self);
        }
        match self.find(key) {
            Some(i) => {
                proof {
                    lemma_pairs_index(self.pairs(), i as int);
                }
                Some(&self.entries[i].1)
            },
            None => None,
        }
    }

    pub fn is_empty(&self) -> (r: bool)
        ensures
            r == (self.map().dom() =~= Set::empty()),
    {
        proof {
            lemma_pairs_empty(self.pairs());
        }
        self.entries.len() == 0
    }

    /// The keys of the table, each once.
    pub fn keys(&self) -> (r: Vec<String>)
        ensures
            r.len() == self.map().dom().len(),
            forall|k: Seq<char>| self.map().contains_key(k) <==> r.deep_view().contains(k),
    {
        proof {
            use_type_invariant(self);
        }
        let mut keys: Vec<String> = Vec::new();
        let mut i: usize = 0;
        while i < self.entries.len()
            invariant
                i <= self.entries.len(),
                keys.len() == i,
                forall|j: int| 0 <= j < i ==> #[trigger] keys@[j]@ == self.entries@[j].0@,
            decreases self.entries.len() - i,
        {
            keys.push(self.entries[i].0.clone());
            i = i + 1;
        }
        proof {
            assert(keys.deep_view() =~= self.pairs().map_values(|e: (Seq<char>, V::V)| e.0));
            lemma_pairs_keys(self.pairs());
        }
        keys
    }

    /// Takes the value stored under `key` out of the table.
    pub fn take(&mut self, key: &String) -> (r: Option<V>)
        ensures
            final(self).map() == old(self).map().remove(key@),
            match r {
                Some(v) => old(self).map().contains_key(key@) && old(self).map()[key@]
                    == v.deep_view(),
                None => !old(self).map().contains_key(key@),
            },
    {
        proof {
            use_type_invariant(&*self);
        }
        match self.find(key) {
            Some(i) => {
                let ghost before = self.pairs();
                proof {
                    lemma_pairs_index(before, i as int);
                    lemma_pairs_remove(before, i as int);
                }
                let mut entries = Vec::new();
                std::mem::swap(&mut entries, &mut self.entries);
                let e = entries.remove(i);
                assert(Self::pairs_of(entries@) =~= before.remove(i as int));
                self.entries = entries;
                Some(e.1)
            },
            None => {
                assert(self.map() =~= self.map().remove(key@));
                None
            },
        }
    }

    /// Stores `value` under `key`, replacing any earlier value.
    pub fn insert(&mut self, key: String, value: V)
        ensures
            final(self).map() == old(self).map().insert(key@, value.deep_view()),
    {
        proof {
            use_type_invariant(&*self);
        }
        let ghost before = self.pairs();
        let ghost vv = value.deep_view();
        let found = self.find(&key);
        let mut entries = Vec::new();
        std::mem::swap(&mut entries, &mut self.entries);
        match found {
            Some(i) => {
                proof {
                    lemma_pairs_update(before, i as int, vv);
                }
                entries.set(i, (key, value));
                assert(Self::pairs_of(entries@) =~= before.update(
                    i as int,
                    (before[i as int].0, vv),
                ));
                self.entries = entries;
            },
            None => {
                let ghost k = key@;
                proof {
                    lemma_pairs_push(before, k, vv);
                }
                entries.push((key, value));
                assert(Self::pairs_of(entries@) =~= before.push((k, vv)));
                self.entries = entries;
            },
        }
    }
}

impl<V: DeepView> DeepView for Table<V> {
    type V = Map<Seq<char>, V::V>;

    open spec fn deep_view(&self) -> Map<Seq<char>, V::V> {
        self.map()
    }
}

} // verus!
