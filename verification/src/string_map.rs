//! A small map from string keys to string values that keeps its entries in
//! insertion order, used for document metadata (values held as JSON text),
//! search filters and vector-store payloads.

use vstd::prelude::*;

use crate::text::{owned, str_eq};

verus! {

/// The key-value pairs of a list of entries, as character sequences.
pub open spec fn pairs_of(v: Seq<(String, String)>) -> Seq<(Seq<char>, Seq<char>)> {
    v.map_values(|e: (String, String)| (e.0@, e.1@))
}

/// The keys of a list of pairs.
pub open spec fn keys_of(p: Seq<(Seq<char>, Seq<char>)>) -> Seq<Seq<char>> {
    p.map_values(|e: (Seq<char>, Seq<char>)| e.0)
}

/// The map that a list of pairs denotes (a later pair wins over an earlier one).
pub open spec fn map_of(p: Seq<(Seq<char>, Seq<char>)>) -> Map<Seq<char>, Seq<char>>
    decreases p.len(),
{
    if p.len() == 0 {
        Map::empty()
    } else {
        map_of(p.drop_last()).insert(p.last().0, p.last().1)
    }
}

/// A key occurs in the map of a list of pairs exactly when some pair has it.
pub proof fn lemma_map_of_dom(p: Seq<(Seq<char>, Seq<char>)>, k: Seq<char>)
    ensures
        map_of(p).contains_key(k) <==> exists|i: int| 0 <= i < p.len() && (#[trigger] p[i]).0 == k,
    decreases p.len(),
{
    if p.len() > 0 {
        lemma_map_of_dom(p.drop_last(), k);
        if map_of(p).contains_key(k) && p.last().0 != k {
            let i = choose|i: int| 0 <= i < p.len() - 1 && (#[trigger] p.drop_last()[i]).0 == k;
            assert(p[i] == p.drop_last()[i]);
        }
        if exists|i: int| 0 <= i < p.len() && (#[trigger] p[i]).0 == k {
            let i = choose|i: int| 0 <= i < p.len() && (#[trigger] p[i]).0 == k;
            if i < p.len() - 1 {
                assert(p.drop_last()[i] == p[i]);
            }
        }
    }
}

/// With distinct keys, the map sends each pair's key to that pair's value.
pub proof fn lemma_map_of_index(p: Seq<(Seq<char>, Seq<char>)>, i: int)
    requires
        keys_of(p).no_duplicates(),
        0 <= i < p.len(),
    ensures
        map_of(p).contains_key(p[i].0),
        map_of(p)[p[i].0] == p[i].1,
    decreases p.len(),
{
    if i < p.len() - 1 {
        let q = p.drop_last();
        assert(keys_of(q) =~= keys_of(p).drop_last());
        assert(q[i] == p[i]);
        lemma_map_of_index(q, i);
        assert(keys_of(p)[i] != keys_of(p)[p.len() - 1]);
    }
}

/// Replacing the value of a pair with distinct keys updates the map at that key.
pub proof fn lemma_map_of_update(p: Seq<(Seq<char>, Seq<char>)>, i: int, v: Seq<char>)
    requires
        keys_of(p).no_duplicates(),
        0 <= i < p.len(),
    ensures
        map_of(p.update(i, (p[i].0, v))) == map_of(p).insert(p[i].0, v),
        keys_of(p.update(i, (p[i].0, v))) == keys_of(p),
    decreases p.len(),
{
    let q = p.update(i, (p[i].0, v));
    assert(keys_of(q) =~= keys_of(p));
    if i == p.len() - 1 {
        assert(q.drop_last() =~= p.drop_last());
        assert(map_of(q) =~= map_of(p).insert(p[i].0, v));
    } else {
        let pd = p.drop_last();
        assert(keys_of(pd) =~= keys_of(p).drop_last());
        assert(q.drop_last() =~= pd.update(i, (pd[i].0, v)));
        lemma_map_of_update(pd, i, v);
        assert(keys_of(p)[i] != keys_of(p)[p.len() - 1]);
        assert(map_of(q) =~= map_of(p).insert(p[i].0, v));
    }
}

/// Map from string keys to string values, kept in insertion order, with no
/// key repeated.
#[derive(Debug, Clone)]
pub struct StringMap {
    pub entries: Vec<(String, String)>,
}

impl View for StringMap {
    type V = Map<Seq<char>, Seq<char>>;

    open spec fn view(&self) -> Map<Seq<char>, Seq<char>> {
        map_of(pairs_of(self.entries@))
    }
}

impl StringMap {
    /// The entries as character-sequence pairs, in order.
    pub open spec fn pairs(&self) -> Seq<(Seq<char>, Seq<char>)> {
        pairs_of(self.entries@)
    }

    /// No key occurs twice.
    pub open spec fn wf(&self) -> bool {
        keys_of(self.pairs()).no_duplicates()
    }

    /// The empty map.
    pub fn new() -> (r: StringMap)
        ensures
            r.wf(),
            r@ == Map::<Seq<char>, Seq<char>>::empty(),
            r.pairs().len() == 0,
    {
        let r = StringMap { entries: Vec::new() };
        assert(r.pairs() =~= Seq::<(Seq<char>, Seq<char>)>::empty());
        assert(keys_of(r.pairs()) =~= Seq::<Seq<char>>::empty());
        r
    }

    /// Number of entries.
    pub fn len(&self) -> (r: usize)
        requires
            self.wf(),
        ensures
            r == self.pairs().len(),
    {
        self.entries.len()
    }

    /// The position of `key` among the entries, if present.
    pub fn index_of(&self, key: &str) -> (r: Option<usize>)
        ensures
            match r {
                Some(i) => i < self.pairs().len() && self.pairs()[i as int].0 == key@,
                None => forall|i: int| 0 <= i < self.pairs().len() ==> (#[trigger] self.pairs()[i]).0 != key@,
            },
    {
        let n = self.entries.len();
        for i in 0..n
            invariant
                n == self.entries@.len(),
                forall|j: int| 0 <= j < i ==> (#[trigger] self.pairs()[j]).0 != key@,
        {
            if str_eq(self.entries[i].0.as_str(), key) {
                return Some(i);
            }
        }
        None
    }

    /// The value stored under `key`.
    pub fn get(&self, key: &str) -> (r: Option<&String>)
        requires
            self.wf(),
        ensures
            match r {
                Some(v) => self@.contains_key(key@) && self@[key@] == v@,
                None => !self@.contains_key(key@),
            },
    {
        proof {
            lemma_map_of_dom(self.pairs(), key@);
        }
        match self.index_of(key) {
            Some(i) => {
                proof {
                    lemma_map_of_index(self.pairs(), i as int);
                }
                Some(&self.entries[i].1)
            },
            None => None,
        }
    }

    /// Whether `key` is present.
    pub fn contains_key(&self, key: &str) -> (r: bool)
        requires
            self.wf(),
        ensures
            r == self@.contains_key(key@),
    {
        proof {
            lemma_map_of_dom(self.pairs(), key@);
        }
        match self.index_of(key) {
            Some(i) => {
                proof {
                    lemma_map_of_index(self.pairs(), i as int);
                }
                true
            },
            None => false,
        }
    }

    /// Sets `key` to `value`: an existing entry keeps its position, a new key
    /// goes last.
    pub fn insert(&mut self, key: String, value: String)
        requires
            old(self).wf(),
        ensures
            final(self).wf(),
            final(self)@ == old(self)@.insert(key@, value@),
            old(self)@.contains_key(key@) ==> final(self).pairs().len() == old(self).pairs().len(),
            !old(self)@.contains_key(key@) ==> final(self).pairs() == old(self).pairs().push(
                (key@, value@),
            ),
    {
        proof {
            lemma_map_of_dom(self.pairs(), key@);
        }
        match self.index_of(key.as_str()) {
            Some(i) => {
                let ghost p = self.pairs();
                proof {
                    lemma_map_of_update(p, i as int, value@);
                    lemma_map_of_index(p, i as int);
                }
                self.entries.set(i, (key, value));
                assert(self.pairs() =~= p.update(i as int, (p[i as int].0, value@)));
            },
            None => {
                let ghost p = self.pairs();
                let ghost kv = key@;
                let ghost vv = value@;
                self.entries.push((key, value));
                assert(self.pairs() =~= p.push((kv, vv)));
                assert(p.push((kv, vv)).drop_last() =~= p);
                assert(keys_of(self.pairs()) =~= keys_of(p).push(kv));
                assert forall|a: int, b: int|
                    0 <= a < b < keys_of(self.pairs()).len() implies keys_of(self.pairs())[a]
                    != keys_of(self.pairs())[b] by {
                    if b == p.len() {
                        assert(keys_of(self.pairs())[a] == p[a].0);
                    } else {
                        assert(keys_of(self.pairs())[a] == keys_of(p)[a]);
                        assert(keys_of(self.pairs())[b] == keys_of(p)[b]);
                    }
                }
            },
        }
    }

    /// A copy with the same entries in the same order.
    pub fn duplicate(&self) -> (r: StringMap)
        ensures
            r.pairs() == self.pairs(),
            r@ == self@,
            r.wf() == self.wf(),
    {
        let mut entries: Vec<(String, String)> = Vec::new();
        let n = self.entries.len();
        assert(pairs_of(entries@) =~= self.pairs().subrange(0, 0));
        for i in 0..n
            invariant
                n == self.entries@.len(),
                pairs_of(entries@) == self.pairs().subrange(0, i as int),
        {
            let ghost before = pairs_of(entries@);
            let k = owned(self.entries[i].0.as_str());
            let v = owned(self.entries[i].1.as_str());
            let ghost kv = (k@, v@);
            entries.push((k, v));
            assert(pairs_of(entries@) =~= before.push(kv));
            assert(pairs_of(entries@) =~= self.pairs().subrange(0, i + 1));
        }
        assert(self.pairs().subrange(0, n as int) =~= self.pairs());
        StringMap { entries }
    }

    /// Sets `key` to `value`, both given as string slices.
    pub fn insert_str(&mut self, key: &str, value: &str)
        requires
            old(self).wf(),
        ensures
            final(self).wf(),
            final(self)@ == old(self)@.insert(key@, value@),
    {
        self.insert(owned(key), owned(value));
    }
}

} // verus!
