use vstd::prelude::*;

verus! {

/// What a list of keyed entries maps each key to: later entries win.
pub open spec fn entries_map<V: DeepView>(s: Seq<(String, V)>) -> Map<Seq<char>, V::V>
    decreases s.len(),
{
    if s.len() == 0 {
        Map::empty()
    } else {
        entries_map(s.drop_last()).insert(s.last().0@, s.last().1.deep_view())
    }
}

/// No key occurs twice.
pub open spec fn keys_unique<V>(s: Seq<(String, V)>) -> bool {
    forall|i: int, j: int| 0 <= i < j < s.len() ==> (#[trigger] s[i]).0@ != (#[trigger] s[j]).0@
}

/// A map from strings to values, kept as a list of entries with distinct keys.
pub struct KeyedList<V> {
    entries: Vec<(String, V)>,
}

proof fn lemma_map_absent<V: DeepView>(s: Seq<(String, V)>, k: Seq<char>)
    requires
        forall|i: int| 0 <= i < s.len() ==> (#[trigger] s[i]).0@ != k,
    ensures
        !entries_map(s).contains_key(k),
    decreases s.len(),
{
    if s.len() > 0 {
        assert(s.last() == s[s.len() - 1]);
        lemma_map_absent(s.drop_last(), k);
    }
}

proof fn lemma_map_at<V: DeepView>(s: Seq<(String, V)>, i: int)
    requires
        keys_unique(s),
        0 <= i < s.len(),
    ensures
        entries_map(s).contains_key(s[i].0@),
        entries_map(s)[s[i].0@] == s[i].1.deep_view(),
    decreases s.len(),
{
    if i < s.len() - 1 {
        let p = s.drop_last();
        assert(p[i] == s[i]);
        assert(keys_unique(p)) by {
            assert forall|a: int, b: int| 0 <= a < b < p.len() implies (#[trigger] p[a]).0@ != (
            #[trigger] p[b]).0@ by {
                assert(p[a] == s[a] && p[b] == s[b]);
            }
        }
        lemma_map_at(p, i);
        assert(s[i].0@ != s[s.len() - 1].0@);
    }
}

proof fn lemma_map_update<V: DeepView>(s: Seq<(String, V)>, i: int, key: String, value: V)
    requires
        keys_unique(s),
        0 <= i < s.len(),
        s[i].0@ == key@,
    ensures
        entries_map(s.update(i, (key, value))) == entries_map(s).insert(key@, value.deep_view()),
        keys_unique(s.update(i, (key, value))),
    decreases s.len(),
{
    let t = s.update(i, (key, value));
    assert(keys_unique(t)) by {
        assert forall|a: int, b: int| 0 <= a < b < t.len() implies (#[trigger] t[a]).0@ != (
        #[trigger] t[b]).0@ by {
            assert(s[a].0@ != s[b].0@);
        }
    }
    if i == s.len() - 1 {
        assert(t.drop_last() =~= s.drop_last());
        assert(entries_map(t) =~= entries_map(s).insert(key@, value.deep_view()));
    } else {
        let p = s.drop_last();
        assert(keys_unique(p)) by {
            assert forall|a: int, b: int| 0 <= a < b < p.len() implies (#[trigger] p[a]).0@ != (
            #[trigger] p[b]).0@ by {
                assert(p[a] == s[a] && p[b] == s[b]);
            }
        }
        assert(p[i] == s[i]);
        lemma_map_update(p, i, key, value);
        assert(t.drop_last() =~= p.update(i, (key, value)));
        assert(t.last() == s.last());
        assert(s.last().0@ != key@) by {
            assert(s[s.len() - 1].0@ != s[i].0@);
        }
        assert(entries_map(t) =~= entries_map(s).insert(key@, value.deep_view()));
    }
}

impl<V> KeyedList<V> {
    #[verifier::type_invariant]
    closed spec fn no_key_twice(self) -> bool {
        keys_unique(self.entries@)
    }
}

impl<V: DeepView> KeyedList<V> {

    /// The map the list stands for, each value by its deep view.
    pub closed spec fn deep_map(self) -> Map<Seq<char>, V::V> {
        entries_map(self.entries@)
    }

    /// An empty map.
    pub fn new() -> (r: KeyedList<V>)
        ensures
            r.deep_map() == Map::<Seq<char>, V::V>::empty(),
    {
        KeyedList { entries: Vec::new() }
    }

    /// The value stored under `key`, if any.
    pub fn get(&self, key: &String) -> (r: Option<&V>)
        ensures
            r is Some <==> self.deep_map().contains_key(key@),
            r matches Some(v) ==> v.deep_view() == self.deep_map()[key@],
    {
        proof {
            use_type_invariant(self);
        }
        let mut i: usize = 0;
        while i < self.entries.len()
            invariant
                i <= self.entries@.len(),
                keys_unique(self.entries@),
                forall|j: int| 0 <= j < i ==> (#[trigger] self.entries@[j]).0@ != key@,
            decreases self.entries@.len() - i,
        {
            if self.entries[i].0 == *key {
                proof {
                    lemma_map_at(self.entries@, i as int);
                }
                return Some(&self.entries[i].1);
            }
            i = i + 1;
        }
        proof {
            lemma_map_absent(self.entries@, key@);
        }
        None
    }

    /// Stores `value` under `key`, replacing what was there.
    pub fn insert(&mut self, key: String, value: V)
        ensures
            final(self).deep_map() == old(self).deep_map().insert(key@, value.deep_view()),
    {
        proof {
            use_type_invariant(&*self);
        }
        let mut entries: Vec<(String, V)> = Vec::new();
        std::mem::swap(&mut entries, &mut self.entries);
        let ghost s = entries@;
        let mut i: usize = 0;
        while i < entries.len()
            invariant
                entries@ == s,
                old(self).deep_map() == entries_map(s),
                i <= s.len(),
                keys_unique(s),
                forall|j: int| 0 <= j < i ==> (#[trigger] s[j]).0@ != key@,
            decreases s.len() - i,
        {
            if entries[i].0 == key {
                proof {
                    lemma_map_update(s, i as int, key, value);
                }
                let ghost kv = (key, value);
                entries.set(i, (key, value));
                assert(entries@ == s.update(i as int, kv));
                self.entries = entries;
                return;
            }
            i = i + 1;
        }
        let ghost kv = (key, value);
        entries.push((key, value));
        assert(entries@ == s.push(kv));
        assert(entries@.drop_last() =~= s);
        assert(keys_unique(entries@)) by {
            assert forall|a: int, b: int| 0 <= a < b < entries@.len() implies (
            #[trigger] entries@[a]).0@ != (#[trigger] entries@[b]).0@ by {
                if b == s.len() {
                    assert(s[a].0@ != key@);
                } else {
                    assert(s[a].0@ != s[b].0@);
                }
            }
        }
        self.entries = entries;
    }

    /// The entries, no key twice.
    pub fn entries(&self) -> (r: &Vec<(String, V)>)
        ensures
            entries_map(r@) == self.deep_map(),
            keys_unique(r@),
    {
        proof {
            use_type_invariant(self);
        }
        &self.entries
    }
}

} // verus!
