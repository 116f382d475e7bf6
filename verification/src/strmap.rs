//! A map from strings to values that keeps its entries in insertion order.
//! Its model is the sequence of (key text, value) pairs; no key occurs twice.
use vstd::prelude::*;

verus! {

/// Index of the entry with key `k` in `m`, or -1 when there is none.
pub open spec fn key_index<V>(m: Seq<(Seq<char>, V)>, k: Seq<char>) -> int
    decreases m.len(),
{
    if m.len() == 0 {
        -1
    } else if m.last().0 == k {
        m.len() - 1
    } else {
        key_index(m.drop_last(), k)
    }
}

/// No key occurs twice in `m`.
pub open spec fn keys_distinct<V>(m: Seq<(Seq<char>, V)>) -> bool {
    forall|i: int, j: int| 0 <= i < m.len() && 0 <= j < m.len() && i != j ==> m[i].0 != m[j].0
}

/// `m` has an entry with key `k`.
pub open spec fn has_key<V>(m: Seq<(Seq<char>, V)>, k: Seq<char>) -> bool {
    exists|i: int| 0 <= i < m.len() && m[i].0 == k
}

/// The value stored under `k`, if any.
pub open spec fn lookup<V>(m: Seq<(Seq<char>, V)>, k: Seq<char>) -> Option<V> {
    if key_index(m, k) >= 0 {
        Some(m[key_index(m, k)].1)
    } else {
        None
    }
}

/// Inserting `(k, v)`: an existing entry for `k` gets the new value in place,
/// otherwise the entry is appended.
pub open spec fn insert_pair<V>(m: Seq<(Seq<char>, V)>, k: Seq<char>, v: V) -> Seq<(Seq<char>, V)> {
    if key_index(m, k) >= 0 {
        m.update(key_index(m, k), (k, v))
    } else {
        m.push((k, v))
    }
}

/// Removing the entry for `k`, if any; the other entries keep their order.
pub open spec fn remove_key<V>(m: Seq<(Seq<char>, V)>, k: Seq<char>) -> Seq<(Seq<char>, V)> {
    if key_index(m, k) >= 0 {
        m.remove(key_index(m, k))
    } else {
        m
    }
}

/// The keys of `m`, in order.
pub open spec fn keys_of<V>(m: Seq<(Seq<char>, V)>) -> Seq<Seq<char>> {
    m.map_values(|e: (Seq<char>, V)| e.0)
}

/// Facts about `key_index`.
pub proof fn lemma_key_index<V>(m: Seq<(Seq<char>, V)>, k: Seq<char>)
    ensures
        -1 <= key_index(m, k) < m.len(),
        key_index(m, k) >= 0 ==> m[key_index(m, k)].0 == k,
        key_index(m, k) == -1 <==> !has_key(m, k),
        forall|j: int| key_index(m, k) < j < m.len() ==> m[j].0 != k,
    decreases m.len(),
{
    if m.len() > 0 {
        lemma_key_index(m.drop_last(), k);
        if m.last().0 != k {
            assert forall|j: int| key_index(m, k) < j < m.len() implies m[j].0 != k by {
                if j < m.len() - 1 {
                    assert(m[j] == m.drop_last()[j]);
                }
            }
            if has_key(m, k) {
                let i = choose|i: int| 0 <= i < m.len() && m[i].0 == k;
                assert(m.drop_last()[i].0 == k);
            }
            if has_key(m.drop_last(), k) {
                let i = choose|i: int| 0 <= i < m.drop_last().len() && m.drop_last()[i].0 == k;
                assert(m[i].0 == k);
            }
        }
    }
}

/// Inserting keeps keys distinct, and the inserted key then maps to the inserted value.
pub proof fn lemma_insert_pair<V>(m: Seq<(Seq<char>, V)>, k: Seq<char>, v: V)
    requires
        keys_distinct(m),
    ensures
        keys_distinct(insert_pair(m, k, v)),
        has_key(insert_pair(m, k, v), k),
        lookup(insert_pair(m, k, v), k) == Some(v),
        forall|k2: Seq<char>| k2 != k ==> lookup(insert_pair(m, k, v), k2) == lookup(m, k2),
        forall|k2: Seq<char>| has_key(insert_pair(m, k, v), k2) <==> (has_key(m, k2) || k2 == k),
{
    lemma_key_index(m, k);
    let r = insert_pair(m, k, v);
    assert(keys_distinct(r));
    lemma_key_index(r, k);
    assert(has_key(r, k)) by {
        if key_index(m, k) >= 0 {
            assert(r[key_index(m, k)].0 == k);
        } else {
            assert(r[m.len() as int].0 == k);
        }
    }
    assert(key_index(r, k) >= 0);
    assert(lookup(r, k) == Some(v)) by {
        let i = key_index(r, k);
        if key_index(m, k) >= 0 {
            assert(r[key_index(m, k)].0 == k);
            assert(i == key_index(m, k));
        } else {
            assert(i == m.len());
        }
    }
    assert forall|k2: Seq<char>| k2 != k implies lookup(r, k2) == lookup(m, k2) by {
        lemma_key_index(m, k2);
        lemma_key_index(r, k2);
        if key_index(m, k2) >= 0 {
            let i = key_index(m, k2);
            assert(r[i].0 == k2);
            assert(key_index(r, k2) == i);
        } else {
            if has_key(r, k2) {
                let j = choose|j: int| 0 <= j < r.len() && r[j].0 == k2;
                assert(m[j].0 == k2);
            }
        }
    }
    assert forall|k2: Seq<char>| has_key(r, k2) <==> (has_key(m, k2) || k2 == k) by {
        if has_key(m, k2) && k2 != k {
            let j = choose|j: int| 0 <= j < m.len() && m[j].0 == k2;
            assert(r[j].0 == k2);
        }
        if has_key(r, k2) && k2 != k {
            let j = choose|j: int| 0 <= j < r.len() && r[j].0 == k2;
            assert(m[j].0 == k2);
        }
    }
}

/// A string-keyed map that remembers the order in which keys were first inserted.
pub struct StrMap<V: View> {
    entries: Vec<(String, V)>,
}

impl<V: View> View for StrMap<V> {
    type V = Seq<(Seq<char>, V::V)>;

    closed spec fn view(&self) -> Seq<(Seq<char>, V::V)> {
        self.entries@.map_values(|e: (String, V)| (e.0@, e.1@))
    }
}

/// Removing keeps keys distinct; afterwards the key has no entry and every
/// other key keeps its value.
pub proof fn lemma_remove_key<V>(m: Seq<(Seq<char>, V)>, k: Seq<char>)
    requires
        keys_distinct(m),
    ensures
        keys_distinct(remove_key(m, k)),
        lookup(remove_key(m, k), k) is None,
        forall|k2: Seq<char>| k2 != k ==> lookup(remove_key(m, k), k2) == lookup(m, k2),
{
    lemma_key_index(m, k);
    let r = remove_key(m, k);
    if key_index(m, k) >= 0 {
        let i = key_index(m, k);
        assert forall|a: int, b: int| 0 <= a < r.len() && 0 <= b < r.len() && a != b implies r[a].0
            != r[b].0 by {
            let oa = if a < i { a } else { a + 1 };
            let ob = if b < i { b } else { b + 1 };
            assert(r[a] == m[oa]);
            assert(r[b] == m[ob]);
        }
        assert(!has_key(r, k)) by {
            if has_key(r, k) {
                let j = choose|j: int| 0 <= j < r.len() && r[j].0 == k;
                let oj = if j < i { j } else { j + 1 };
                assert(r[j] == m[oj]);
            }
        }
        lemma_key_index(r, k);
        assert forall|k2: Seq<char>| k2 != k implies lookup(r, k2) == lookup(m, k2) by {
            lemma_key_index(m, k2);
            lemma_key_index(r, k2);
            if key_index(m, k2) >= 0 {
                let j = key_index(m, k2);
                assert(j != i);
                let nj = if j < i { j } else { j - 1 };
                assert(r[nj] == m[j]);
                assert(has_key(r, k2));
                let rj = key_index(r, k2);
                let orj = if rj < i { rj } else { rj + 1 };
                assert(r[rj] == m[orj]);
                assert(orj == j);
            } else {
                if has_key(r, k2) {
                    let j = choose|j: int| 0 <= j < r.len() && r[j].0 == k2;
                    let oj = if j < i { j } else { j + 1 };
                    assert(r[j] == m[oj]);
                    assert(has_key(m, k2));
                }
            }
        }
    } else {
        lemma_key_index(r, k);
    }
}

/// Law of the map: a read after a write. Right after `insert(k, v)`, `get(k)`
/// gives `v`, and every other key gives what it gave before.
pub proof fn law_get_after_insert<V>(m: Seq<(Seq<char>, V)>, k: Seq<char>, v: V, other: Seq<char>)
    requires
        keys_distinct(m),
    ensures
        lookup(insert_pair(m, k, v), k) == Some(v),
        other != k ==> lookup(insert_pair(m, k, v), other) == lookup(m, other),
        keys_distinct(insert_pair(m, k, v)),
{
    lemma_insert_pair(m, k, v);
}

/// Law of the map: a read after a removal. Right after `remove(k)`, `get(k)`
/// gives nothing, and every other key gives what it gave before.
pub proof fn law_get_after_remove<V>(m: Seq<(Seq<char>, V)>, k: Seq<char>, other: Seq<char>)
    requires
        keys_distinct(m),
    ensures
        lookup(remove_key(m, k), k) is None,
        other != k ==> lookup(remove_key(m, k), other) == lookup(m, other),
        keys_distinct(remove_key(m, k)),
{
    lemma_remove_key(m, k);
}

/// Law of the map: inserting the same key twice keeps only the second value
/// and leaves the map as one insertion of that value would.
pub proof fn law_insert_twice<V>(m: Seq<(Seq<char>, V)>, k: Seq<char>, v1: V, v2: V)
    requires
        keys_distinct(m),
    ensures
        insert_pair(insert_pair(m, k, v1), k, v2) == insert_pair(m, k, v2),
{
    lemma_key_index(m, k);
    lemma_insert_pair(m, k, v1);
    let m1 = insert_pair(m, k, v1);
    lemma_key_index(m1, k);
    if key_index(m, k) >= 0 {
        let i = key_index(m, k);
        assert(m1[i].0 == k);
        assert(key_index(m1, k) == i) by {
            if key_index(m1, k) != i {
                assert(m1[key_index(m1, k)].0 == k);
            }
        }
        assert(insert_pair(m1, k, v2) =~= insert_pair(m, k, v2));
    } else {
        assert(m1[m.len() as int].0 == k);
        assert(key_index(m1, k) == m.len());
        assert(insert_pair(m1, k, v2) =~= insert_pair(m, k, v2));
    }
}

impl<V: View> StrMap<V> {
    /// No key occurs twice.
    #[verifier::type_invariant]
    pub closed spec fn inv(&self) -> bool {
        keys_distinct(self@)
    }

    /// What the type invariant says, for callers that hold a map.
    pub proof fn lemma_inv(&self)
        requires
            self.inv(),
        ensures
            keys_distinct(self@),
    {
    }

    /// An empty map.
    pub fn new() -> (r: Self)
        ensures
            r@ == Seq::<(Seq<char>, V::V)>::empty(),
    {
        let r = StrMap { entries: Vec::new() };
        assert(r@ =~= Seq::<(Seq<char>, V::V)>::empty());
        r
    }

    /// Number of entries.
    pub fn len(&self) -> (r: usize)
        ensures
            r == self@.len(),
    {
        self.entries.len()
    }

    /// Whether the map has no entry.
    pub fn is_empty(&self) -> (r: bool)
        ensures
            r == (self@.len() == 0),
    {
        self.entries.len() == 0
    }

    /// Position of the entry for `k`.
    fn find(&self, k: &str) -> (r: Option<usize>)
        ensures
            match r {
                Some(i) => i == key_index(self@, k@) && i < self@.len(),
                None => key_index(self@, k@) == -1,
            },
    {
        proof {
            lemma_key_index(self@, k@);
        }
        let key = k.to_owned();
        let mut i: usize = self.entries.len();
        while i > 0
            invariant
                i <= self.entries@.len(),
                key@ == k@,
                self@.len() == self.entries@.len(),
                forall|j: int| i <= j < self@.len() ==> self@[j].0 != k@,
                self@ == self.entries@.map_values(|e: (String, V)| (e.0@, e.1@)),
            decreases i,
        {
            assert(self@[i - 1] == (self.entries@[i - 1].0@, self.entries@[i - 1].1@));
            if self.entries[i - 1].0 == key {
                assert(self@[i - 1].0 == k@);
                proof {
                    lemma_key_index(self@, k@);
                    let ki = key_index(self@, k@);
                    assert(ki == i - 1) by {
                        if ki < i - 1 {
                        }
                    }
                }
                return Some(i - 1);
            }
            i = i - 1;
        }
        proof {
            lemma_key_index(self@, k@);
            if key_index(self@, k@) >= 0 {
                assert(self@[key_index(self@, k@)].0 == k@);
            }
        }
        None
    }

    /// Whether `k` has an entry.
    pub fn contains_key(&self, k: &str) -> (r: bool)
        ensures
            r == has_key(self@, k@),
    {
        proof {
            lemma_key_index(self@, k@);
        }
        self.find(k).is_some()
    }

    /// The value stored under `k`.
    pub fn get(&self, k: &str) -> (r: Option<&V>)
        ensures
            match r {
                Some(v) => lookup(self@, k@) == Some(v@),
                None => lookup(self@, k@) is None,
            },
    {
        match self.find(k) {
            Some(i) => Some(&self.entries[i].1),
            None => None,
        }
    }

    /// Stores `v` under `k`, replacing the value of an existing entry in place.
    pub fn insert(&mut self, k: String, v: V)
        ensures
            final(self)@ == insert_pair(old(self)@, k@, v@),
    {
        proof {
            use_type_invariant(&*self);
            lemma_insert_pair(self@, k@, v@);
        }
        let ghost kv = k@;
        let ghost old_view = self@;
        let found = self.find(k.as_str());
        let mut entries: Vec<(String, V)> = Vec::new();
        std::mem::swap(&mut entries, &mut self.entries);
        match found {
            Some(i) => {
                entries.set(i, (k, v));
            },
            None => {
                entries.push((k, v));
            },
        }
        let ghost nv = entries@.map_values(|e: (String, V)| (e.0@, e.1@));
        assert(nv =~= insert_pair(old_view, kv, v@));
        self.entries = entries;
    }

    /// Removes every entry.
    pub fn clear(&mut self)
        ensures
            final(self)@ == Seq::<(Seq<char>, V::V)>::empty(),
    {
        self.entries = Vec::new();
        assert(self@ =~= Seq::<(Seq<char>, V::V)>::empty());
    }

    /// Removes the entry for `k` and gives back its value.
    pub fn remove(&mut self, k: &str) -> (r: Option<V>)
        ensures
            final(self)@ == remove_key(old(self)@, k@),
            match r {
                Some(v) => lookup(old(self)@, k@) == Some(v@),
                None => lookup(old(self)@, k@) is None,
            },
    {
        proof {
            use_type_invariant(&*self);
            lemma_key_index(self@, k@);
        }
        let ghost old_view = self@;
        match self.find(k) {
            Some(i) => {
                let mut entries: Vec<(String, V)> = Vec::new();
                std::mem::swap(&mut entries, &mut self.entries);
                let ghost before = entries@;
                let (_key, v) = entries.remove(i);
                let ghost nv = entries@.map_values(|e: (String, V)| (e.0@, e.1@));
                assert(nv =~= old_view.remove(i as int));
                assert(keys_distinct(nv)) by {
                    assert forall|a: int, b: int|
                        0 <= a < nv.len() && 0 <= b < nv.len() && a != b implies nv[a].0 != nv[b].0 by {
                        let oa = if a < i { a } else { a + 1 };
                        let ob = if b < i { b } else { b + 1 };
                        assert(nv[a] == old_view[oa]);
                        assert(nv[b] == old_view[ob]);
                    }
                }
                self.entries = entries;
                Some(v)
            },
            None => None,
        }
    }

    /// The key of the `i`-th entry.
    pub fn key_at(&self, i: usize) -> (r: &String)
        requires
            i < self@.len(),
        ensures
            r@ == self@[i as int].0,
    {
        &self.entries[i].0
    }

    /// The value of the `i`-th entry.
    pub fn value_at(&self, i: usize) -> (r: &V)
        requires
            i < self@.len(),
        ensures
            r@ == self@[i as int].1,
    {
        &self.entries[i].1
    }

    /// Replaces the value of the `i`-th entry.
    pub fn set_value_at(&mut self, i: usize, v: V)
        requires
            i < old(self)@.len(),
        ensures
            final(self)@ == old(self)@.update(i as int, (old(self)@[i as int].0, v@)),
    {
        proof {
            use_type_invariant(&*self);
        }
        let ghost old_view = self@;
        let key = self.entries[i].0.clone();
        let mut entries: Vec<(String, V)> = Vec::new();
        std::mem::swap(&mut entries, &mut self.entries);
        entries.set(i, (key, v));
        let ghost nv = entries@.map_values(|e: (String, V)| (e.0@, e.1@));
        assert(nv =~= old_view.update(i as int, (old_view[i as int].0, v@)));
        assert(keys_distinct(nv));
        self.entries = entries;
    }

    /// The keys, in order.
    pub fn keys(&self) -> (r: Vec<String>)
        ensures
            r.deep_view() == keys_of(self@),
    {
        let mut out: Vec<String> = Vec::new();
        let mut i: usize = 0;
        while i < self.len()
            invariant
                i <= self@.len(),
                out.deep_view() == keys_of(self@).subrange(0, i as int),
            decreases self@.len() - i,
        {
            let ghost before = out.deep_view();
            let kc = self.key_at(i).clone();
            assert(kc@ == self@[i as int].0);
            out.push(kc);
            assert(out.deep_view() =~= before.push(kc@));
            assert(out.deep_view() =~= keys_of(self@).subrange(0, i + 1));
            i = i + 1;
        }
        assert(keys_of(self@).subrange(0, self@.len() as int) =~= keys_of(self@));
        out
    }
}

impl StrMap<String> {
    /// Builds a map by inserting the given pairs in order.
    pub fn from_pairs(pairs: Vec<(String, String)>) -> (r: Self)
        ensures
            r@ == pairs_model(pairs.deep_view()),
    {
        let mut m = StrMap::new();
        let mut i: usize = 0;
        while i < pairs.len()
            invariant
                i <= pairs@.len(),
                m@ == pairs_model(pairs.deep_view().subrange(0, i as int)),
            decreases pairs@.len() - i,
        {
            let k = pairs[i].0.clone();
            let v = pairs[i].1.clone();
            m.insert(k, v);
            assert(pairs.deep_view().subrange(0, i + 1).drop_last() =~= pairs.deep_view().subrange(0, i as int));
            i = i + 1;
        }
        assert(pairs.deep_view().subrange(0, pairs@.len() as int) =~= pairs.deep_view());
        m
    }
}
/// The map obtained by inserting `pairs` in order into an empty map.
pub open spec fn pairs_model(pairs: Seq<(Seq<char>, Seq<char>)>) -> Seq<(Seq<char>, Seq<char>)>
    decreases pairs.len(),
{
    if pairs.len() == 0 {
        Seq::empty()
    } else {
        insert_pair(pairs_model(pairs.drop_last()), pairs.last().0, pairs.last().1)
    }
}

} // verus!
