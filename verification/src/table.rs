//! A table keyed by strings, each key at most once.

use vstd::prelude::*;
use crate::text::{chars_of, eq_str};

verus! {

pub struct Entry<V> {
    pub key: String,
    pub value: V,
}

pub open spec fn keys_distinct<V>(s: Seq<Entry<V>>) -> bool {
    forall|i: int, j: int| 0 <= i < j < s.len() ==> #[trigger] s[i].key@ != #[trigger] s[j].key@
}

pub open spec fn map_of<V>(s: Seq<Entry<V>>) -> Map<Seq<char>, V> {
    Map::new(
        |k: Seq<char>| exists|i: int| 0 <= i < s.len() && s[i].key@ == k,
        |k: Seq<char>| s[choose|i: int| 0 <= i < s.len() && s[i].key@ == k].value,
    )
}

pub proof fn lemma_map_at<V>(s: Seq<Entry<V>>, i: int)
    requires
        keys_distinct(s),
        0 <= i < s.len(),
    ensures
        map_of(s).contains_key(s[i].key@),
        map_of(s)[s[i].key@] == s[i].value,
{
    let k = s[i].key@;
    let j = choose|j: int| 0 <= j < s.len() && s[j].key@ == k;
    assert(0 <= j < s.len() && s[j].key@ == k);
    if j != i {
        if j < i {
            assert(s[j].key@ != s[i].key@);
        } else {
            assert(s[i].key@ != s[j].key@);
        }
    }
}

pub proof fn lemma_map_remove<V>(s: Seq<Entry<V>>, i: int)
    requires
        keys_distinct(s),
        0 <= i < s.len(),
    ensures
        keys_distinct(s.remove(i)),
        map_of(s.remove(i)) == map_of(s).remove(s[i].key@),
{
    let t = s.remove(i);
    let k = s[i].key@;
    assert forall|a: int, b: int| 0 <= a < b < t.len() implies #[trigger] t[a].key@ != #[trigger] t[b].key@ by {
        let oa = if a < i { a } else { a + 1 };
        let ob = if b < i { b } else { b + 1 };
        assert(t[a] == s[oa]);
        assert(t[b] == s[ob]);
        assert(s[oa].key@ != s[ob].key@);
    }
    assert forall|key: Seq<char>| #[trigger] map_of(t).contains_key(key) <==> map_of(s).remove(k).contains_key(key) by {
        if map_of(t).contains_key(key) {
            let a = choose|a: int| 0 <= a < t.len() && t[a].key@ == key;
            let oa = if a < i { a } else { a + 1 };
            assert(t[a] == s[oa]);
            if oa < i {
                assert(s[oa].key@ != s[i].key@);
            } else {
                assert(s[i].key@ != s[oa].key@);
            }
            assert(map_of(s).contains_key(key));
        }
        if map_of(s).remove(k).contains_key(key) {
            let oa = choose|a: int| 0 <= a < s.len() && s[a].key@ == key;
            assert(oa != i);
            let a = if oa < i { oa } else { oa - 1 };
            assert(t[a] == s[oa]);
            assert(map_of(t).contains_key(key));
        }
    }
    assert forall|key: Seq<char>| #[trigger] map_of(t).contains_key(key) implies map_of(t)[key] == map_of(s)[key] by {
        let a = choose|a: int| 0 <= a < t.len() && t[a].key@ == key;
        let oa = if a < i { a } else { a + 1 };
        assert(t[a] == s[oa]);
        lemma_map_at(t, a);
        lemma_map_at(s, oa);
    }
    assert(map_of(t) =~= map_of(s).remove(k));
}

pub proof fn lemma_map_push<V>(s: Seq<Entry<V>>, e: Entry<V>)
    requires
        keys_distinct(s),
        !map_of(s).contains_key(e.key@),
    ensures
        keys_distinct(s.push(e)),
        map_of(s.push(e)) == map_of(s).insert(e.key@, e.value),
{
    let t = s.push(e);
    let n = s.len() as int;
    assert forall|a: int, b: int| 0 <= a < b < t.len() implies #[trigger] t[a].key@ != #[trigger] t[b].key@ by {
        assert(t[a] == s[a]);
        if b < n {
            assert(t[b] == s[b]);
        } else {
            if s[a].key@ == e.key@ {
                assert(map_of(s).contains_key(e.key@));
            }
        }
    }
    let m = map_of(s).insert(e.key@, e.value);
    assert forall|key: Seq<char>| #[trigger] map_of(t).contains_key(key) <==> m.contains_key(key) by {
        if map_of(t).contains_key(key) {
            let a = choose|a: int| 0 <= a < t.len() && t[a].key@ == key;
            if a < n {
                assert(t[a] == s[a]);
                assert(map_of(s).contains_key(key));
            }
        }
        if map_of(s).contains_key(key) {
            let a = choose|a: int| 0 <= a < s.len() && s[a].key@ == key;
            assert(t[a] == s[a]);
        }
        if key == e.key@ {
            assert(t[n] == e);
        }
    }
    assert forall|key: Seq<char>| #[trigger] map_of(t).contains_key(key) implies map_of(t)[key] == m[key] by {
        let a = choose|a: int| 0 <= a < t.len() && t[a].key@ == key;
        lemma_map_at(t, a);
        if a < n {
            assert(t[a] == s[a]);
            lemma_map_at(s, a);
        } else {
            assert(t[a] == e);
        }
    }
    assert(map_of(t) =~= m);
}

/// A table from strings to values.
pub struct KeyedTable<V> {
    entries: Vec<Entry<V>>,
}

impl<V> KeyedTable<V> {
    #[verifier::type_invariant]
    spec fn inv(&self) -> bool {
        keys_distinct(self.entries@)
    }

    pub closed spec fn view(&self) -> Map<Seq<char>, V> {
        map_of(self.entries@)
    }

    pub fn new() -> (t: Self)
        ensures
            t.view() == Map::<Seq<char>, V>::empty(),
    {
        let t = KeyedTable { entries: Vec::new() };
        assert(t.view() =~= Map::<Seq<char>, V>::empty());
        t
    }

    fn find(&self, key: &str) -> (r: Option<usize>)
        ensures
            match r {
                Some(i) => i < self.entries.len() && self.entries@[i as int].key@ == key@,
                None => forall|i: int| 0 <= i < self.entries.len() ==> self.entries@[i].key@ != key@,
            },
    {
        let mut i: usize = 0;
        while i < self.entries.len()
            invariant
                i <= self.entries.len(),
                forall|j: int| 0 <= j < i ==> self.entries@[j].key@ != key@,
            decreases self.entries.len() - i,
        {
            let k = chars_of(self.entries[i].key.as_str());
            if eq_str(&k, key) {
                return Some(i);
            }
            i += 1;
        }
        None
    }

    pub fn contains_key(&self, key: &str) -> (b: bool)
        ensures
            b == self.view().contains_key(key@),
    {
        proof { use_type_invariant(self); }
        match self.find(key) {
            Some(i) => {
                proof { lemma_map_at(self.entries@, i as int); }
                true
            },
            None => false,
        }
    }

    pub fn get(&self, key: &str) -> (r: Option<&V>)
        ensures
            match r {
                Some(v) => self.view().contains_key(key@) && self.view()[key@] == *v,
                None => !self.view().contains_key(key@),
            },
    {
        proof { use_type_invariant(self); }
        match self.find(key) {
            Some(i) => {
                proof { lemma_map_at(self.entries@, i as int); }
                Some(&self.entries[i].value)
            },
            None => None,
        }
    }

    /// Removes the entry of `key` and hands back its value.
    pub fn remove(&mut self, key: &str) -> (r: Option<V>)
        ensures
            final(self).view() == old(self).view().remove(key@),
            match r {
                Some(v) => old(self).view().contains_key(key@) && old(self).view()[key@] == v,
                None => !old(self).view().contains_key(key@),
            },
    {
        proof { use_type_invariant(&*self); }
        match self.find(key) {
            Some(i) => {
                proof { lemma_map_at(self.entries@, i as int); }
                let mut entries: Vec<Entry<V>> = Vec::new();
                std::mem::swap(&mut entries, &mut self.entries);
                proof { lemma_map_remove(entries@, i as int); }
                let e = entries.remove(i);
                self.entries = entries;
                Some(e.value)
            },
            None => {
                assert(self.view() =~= self.view().remove(key@));
                None
            },
        }
    }

    /// Sets the value of `key`, replacing any it had.
    pub fn insert(&mut self, key: String, value: V)
        ensures
            final(self).view() == old(self).view().insert(key@, value),
    {
        let _ = self.remove(key.as_str());
        proof { use_type_invariant(&*self); }
        let mut entries: Vec<Entry<V>> = Vec::new();
        std::mem::swap(&mut entries, &mut self.entries);
        let e = Entry { key, value };
        proof { lemma_map_push(entries@, e); }
        entries.push(e);
        self.entries = entries;
    }

    /// Number of entries.
    pub fn len(&self) -> (n: usize)
        ensures
            n == self.view().len(),
    {
        proof {
            use_type_invariant(self);
            lemma_len(self.entries@);
        }
        self.entries.len()
    }

    /// Removes every entry and hands them back (in table order).
    pub fn drain(&mut self) -> (r: Vec<Entry<V>>)
        ensures
            final(self).view() == Map::<Seq<char>, V>::empty(),
            map_of(r@) == old(self).view(),
            keys_distinct(r@),
    {
        proof { use_type_invariant(&*self); }
        let mut entries: Vec<Entry<V>> = Vec::new();
        std::mem::swap(&mut entries, &mut self.entries);
        assert(self.view() =~= Map::<Seq<char>, V>::empty());
        entries
    }
}

pub proof fn lemma_len<V>(s: Seq<Entry<V>>)
    requires
        keys_distinct(s),
    ensures
        map_of(s).dom().finite(),
        map_of(s).len() == s.len(),
    decreases s.len(),
{
    if s.len() == 0 {
        assert(map_of(s).dom() =~= Set::<Seq<char>>::empty());
    } else {
        let t = s.drop_last();
        assert(keys_distinct(t)) by {
            assert forall|a: int, b: int| 0 <= a < b < t.len() implies #[trigger] t[a].key@ != #[trigger] t[b].key@ by {
                assert(t[a] == s[a] && t[b] == s[b]);
            }
        }
        lemma_len(t);
        assert(s.remove(s.len() - 1) =~= t);
        lemma_map_remove(s, s.len() - 1);
        lemma_map_at(s, s.len() - 1);
        assert(map_of(s).dom() =~= map_of(t).dom().insert(s.last().key@));
    }
}

impl KeyedTable<u64> {
    /// The key of some entry whose value is `v`.
    fn key_with_value(&self, v: u64) -> (r: Option<String>)
        ensures
            match r {
                Some(k) => self.view().contains_key(k@) && self.view()[k@] == v,
                None => forall|k: Seq<char>| #[trigger] self.view().contains_key(k) ==> self.view()[k] != v,
            },
    {
        proof { use_type_invariant(self); }
        let mut i: usize = 0;
        while i < self.entries.len()
            invariant
                i <= self.entries.len(),
                keys_distinct(self.entries@),
                forall|j: int| 0 <= j < i ==> self.entries@[j].value != v,
            decreases self.entries.len() - i,
        {
            if self.entries[i].value == v {
                proof { lemma_map_at(self.entries@, i as int); }
                return Some(self.entries[i].key.clone());
            }
            i += 1;
        }
        proof {
            assert forall|k: Seq<char>| #[trigger] self.view().contains_key(k) implies self.view()[k] != v by {
                let a = choose|a: int| 0 <= a < self.entries.len() && self.entries@[a].key@ == k;
                lemma_map_at(self.entries@, a);
            }
        }
        None
    }

    /// Drops every entry whose value is `v`.
    pub fn remove_value(&mut self, v: u64)
        ensures
            forall|k: Seq<char>| #[trigger] final(self).view().contains_key(k) <==> old(self).view().contains_key(k) && old(self).view()[k] != v,
            forall|k: Seq<char>| #[trigger] final(self).view().contains_key(k) ==> final(self).view()[k] == old(self).view()[k],
    {
        let ghost o = self.view();
        loop
            invariant
                forall|k: Seq<char>| #[trigger] self.view().contains_key(k) ==> o.contains_key(k) && self.view()[k] == o[k],
                forall|k: Seq<char>| o.contains_key(k) && o[k] != v ==> #[trigger] self.view().contains_key(k),
            ensures
                forall|k: Seq<char>| #[trigger] self.view().contains_key(k) ==> o.contains_key(k) && self.view()[k] == o[k],
                forall|k: Seq<char>| o.contains_key(k) && o[k] != v ==> #[trigger] self.view().contains_key(k),
                forall|k: Seq<char>| #[trigger] self.view().contains_key(k) ==> self.view()[k] != v,
            decreases self.entries.len(),
        {
            proof { use_type_invariant(&*self); lemma_len(self.entries@); }
            match self.key_with_value(v) {
                Some(k) => {
                    let ghost before = self.entries.len();
                    let ghost m0 = self.view();
                    let _ = self.remove(k.as_str());
                    proof {
                        use_type_invariant(&*self);
                        lemma_len(self.entries@);
                        m0.lemma_remove_key_len(k@);
                    }
                },
                None => {
                    break;
                },
            }
        }
    }
}

} // verus!
