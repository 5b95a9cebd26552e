use vstd::prelude::*;

verus! {

/// A value that is identified by a textual key, such as a device by its id.
pub trait Keyed {
    spec fn key_view(&self) -> Seq<char>;

    fn key(&self) -> (r: &String)
        ensures
            r@ == self.key_view(),
    ;
}

/// No two entries of the sequence share a key.
pub open spec fn keys_unique<T: Keyed>(s: Seq<T>) -> bool {
    forall|i: int, j: int|
        0 <= i < s.len() && 0 <= j < s.len() && i != j ==> #[trigger] s[i].key_view()
            != #[trigger] s[j].key_view()
}

/// Some entry of the sequence has the key.
pub open spec fn seq_has_key<T: Keyed>(s: Seq<T>, k: Seq<char>) -> bool {
    exists|i: int| 0 <= i < s.len() && #[trigger] s[i].key_view() == k
}

/// The map from each key to the entry that carries it.
pub open spec fn seq_to_map<T: Keyed>(s: Seq<T>) -> Map<Seq<char>, T> {
    Map::new(
        |k: Seq<char>| seq_has_key(s, k),
        |k: Seq<char>| s[choose|i: int| 0 <= i < s.len() && #[trigger] s[i].key_view() == k],
    )
}

/// In a sequence with unique keys, the map sends the key of each entry to that entry.
pub proof fn lemma_map_at<T: Keyed>(s: Seq<T>, i: int)
    requires
        keys_unique(s),
        0 <= i < s.len(),
    ensures
        seq_to_map(s).contains_key(s[i].key_view()),
        seq_to_map(s)[s[i].key_view()] == s[i],
{
    let k = s[i].key_view();
    assert(seq_has_key(s, k));
    let j = choose|j: int| 0 <= j < s.len() && #[trigger] s[j].key_view() == k;
    assert(s[j].key_view() == k);
    assert(i == j);
}

/// Every key in the map is carried by some entry, which the map returns.
pub proof fn lemma_map_key<T: Keyed>(s: Seq<T>, k: Seq<char>) -> (i: int)
    requires
        keys_unique(s),
        seq_to_map(s).contains_key(k),
    ensures
        0 <= i < s.len(),
        s[i].key_view() == k,
        seq_to_map(s)[k] == s[i],
{
    let i = choose|i: int| 0 <= i < s.len() && #[trigger] s[i].key_view() == k;
    lemma_map_at(s, i);
    i
}

/// A collection of keyed values, at most one per key, kept in insertion order.
#[derive(Debug)]
pub struct Registry<T: Keyed> {
    items: Vec<T>,
}

impl<T: Keyed> Registry<T> {
    #[verifier::type_invariant]
    spec fn unique_keys(self) -> bool {
        keys_unique(self.items@)
    }

    /// The entries in insertion order.
    pub closed spec fn entries(self) -> Seq<T> {
        self.items@
    }

    /// The entries by key.
    pub open spec fn map(self) -> Map<Seq<char>, T> {
        seq_to_map(self.entries())
    }

    pub fn new() -> (r: Self)
        ensures
            r.entries() == Seq::<T>::empty(),
            r.map() == Map::<Seq<char>, T>::empty(),
    {
        let r = Registry { items: Vec::new() };
        assert(r.map() =~= Map::<Seq<char>, T>::empty());
        r
    }

    /// The entries in insertion order, for iteration.
    pub fn as_vec(&self) -> (r: &Vec<T>)
        ensures
            r@ == self.entries(),
            keys_unique(r@),
    {
        proof {
            use_type_invariant(self);
        }
        &self.items
    }

    pub fn len(&self) -> (r: usize)
        ensures
            r == self.entries().len(),
    {
        self.items.len()
    }

    /// The position of the entry with the given key, if any.
    pub fn position(&self, key: &String) -> (r: Option<usize>)
        ensures
            match r {
                Some(i) => i < self.entries().len() && self.entries()[i as int].key_view() == key@,
                None => !seq_has_key(self.entries(), key@),
            },
    {
        let mut i: usize = 0;
        while i < self.items.len()
            invariant
                i <= self.items@.len(),
                forall|j: int| 0 <= j < i ==> #[trigger] self.items@[j].key_view() != key@,
            decreases self.items@.len() - i,
        {
            if self.items[i].key().eq(key) {
                return Some(i);
            }
            i = i + 1;
        }
        None
    }

    /// Whether some entry has the key.
    pub fn contains_key(&self, key: &str) -> (r: bool)
        ensures
            r == self.map().contains_key(key@),
    {
        let k = String::from_str(key);
        self.position(&k).is_some()
    }

    /// The entry with the given key.
    pub fn get(&self, key: &str) -> (r: Option<&T>)
        ensures
            match r {
                Some(x) => self.map().contains_key(key@) && *x == self.map()[key@],
                None => !self.map().contains_key(key@),
            },
    {
        proof {
            use_type_invariant(self);
        }
        let k = String::from_str(key);
        match self.position(&k) {
            Some(i) => {
                proof {
                    lemma_map_at(self.items@, i as int);
                }
                Some(&self.items[i])
            },
            None => None,
        }
    }

    /// Adds a value under its key, replacing the entry that had the same key in place.
    pub fn insert(&mut self, v: T)
        ensures
            final(self).map() == old(self).map().insert(v.key_view(), v),
            seq_has_key(old(self).entries(), v.key_view()) ==> exists|i: int|
                0 <= i < old(self).entries().len() && old(self).entries()[i].key_view()
                    == v.key_view() && final(self).entries() == old(self).entries().update(i, v),
            !seq_has_key(old(self).entries(), v.key_view()) ==> final(self).entries() == old(
                self,
            ).entries().push(v),
    {
        proof {
            use_type_invariant(&*self);
        }
        let ghost old_items = self.items@;
        let ghost k = v.key_view();
        let pos = self.position(v.key());
        let mut items: Vec<T> = Vec::new();
        std::mem::swap(&mut items, &mut self.items);
        match pos {
            Some(i) => {
                items.set(i, v);
                proof {
                    let s = items@;
                    assert(keys_unique(s)) by {
                        assert forall|a: int, b: int|
                            0 <= a < s.len() && 0 <= b < s.len() && a != b implies #[trigger] s[a].key_view()
                            != #[trigger] s[b].key_view() by {
                            if a != i && b != i {
                                assert(s[a] == old_items[a] && s[b] == old_items[b]);
                            } else if a == i {
                                assert(old_items[a].key_view() == k);
                                assert(s[b] == old_items[b]);
                            } else {
                                assert(old_items[b].key_view() == k);
                                assert(s[a] == old_items[a]);
                            }
                        }
                    }
                    assert(items@ == old_items.update(i as int, v));
                    Self::lemma_insert_replaced(items@, old_items, i as int, v);
                }
            },
            None => {
                items.push(v);
                proof {
                    let s = items@;
                    assert(keys_unique(s)) by {
                        assert forall|a: int, b: int|
                            0 <= a < s.len() && 0 <= b < s.len() && a != b implies #[trigger] s[a].key_view()
                            != #[trigger] s[b].key_view() by {
                            if a < old_items.len() && b < old_items.len() {
                                assert(s[a] == old_items[a] && s[b] == old_items[b]);
                            } else if a < old_items.len() {
                                assert(s[a] == old_items[a]);
                                assert(old_items[a].key_view() != k);
                            } else {
                                assert(s[b] == old_items[b]);
                                assert(old_items[b].key_view() != k);
                            }
                        }
                    }
                    Self::lemma_insert_pushed(items@, old_items, v);
                }
            },
        }
        self.items = items;
    }

    proof fn lemma_insert_replaced(s: Seq<T>, old_items: Seq<T>, i: int, v: T)
        requires
            keys_unique(old_items),
            keys_unique(s),
            0 <= i < old_items.len(),
            old_items[i].key_view() == v.key_view(),
            s == old_items.update(i, v),
        ensures
            seq_to_map(s) == seq_to_map(old_items).insert(v.key_view(), v),
    {
        let k = v.key_view();
        let m_new = seq_to_map(s);
        let m_old = seq_to_map(old_items).insert(k, v);
        assert forall|key: Seq<char>| m_new.contains_key(key) == m_old.contains_key(key) by {
            if m_new.contains_key(key) {
                let j = lemma_map_key(s, key);
                if j != i {
                    assert(old_items[j] == s[j]);
                    lemma_map_at(old_items, j);
                }
            }
            if seq_to_map(old_items).contains_key(key) {
                let j = lemma_map_key(old_items, key);
                if j != i {
                    assert(old_items[j] == s[j]);
                }
                lemma_map_at(s, j);
            }
            if key == k {
                lemma_map_at(s, i);
            }
        }
        assert forall|key: Seq<char>| #[trigger] m_new.contains_key(key) implies m_new[key]
            == m_old[key] by {
            let j = lemma_map_key(s, key);
            if j == i {
            } else {
                assert(old_items[j] == s[j]);
                lemma_map_at(old_items, j);
            }
        }
        assert(m_new =~= m_old);
    }

    proof fn lemma_insert_pushed(s: Seq<T>, old_items: Seq<T>, v: T)
        requires
            keys_unique(old_items),
            keys_unique(s),
            !seq_has_key(old_items, v.key_view()),
            s == old_items.push(v),
        ensures
            seq_to_map(s) == seq_to_map(old_items).insert(v.key_view(), v),
    {
        let k = v.key_view();
        let n: int = old_items.len() as int;
        let m_new = seq_to_map(s);
        let m_old = seq_to_map(old_items).insert(k, v);
        assert forall|key: Seq<char>| m_new.contains_key(key) == m_old.contains_key(key) by {
            if m_new.contains_key(key) {
                let j = lemma_map_key(s, key);
                if j != n {
                    assert(old_items[j] == s[j]);
                    lemma_map_at(old_items, j);
                }
            }
            if seq_to_map(old_items).contains_key(key) {
                let j = lemma_map_key(old_items, key);
                assert(old_items[j] == s[j]);
                lemma_map_at(s, j);
            }
            if key == k {
                lemma_map_at(s, n);
            }
        }
        assert forall|key: Seq<char>| #[trigger] m_new.contains_key(key) implies m_new[key]
            == m_old[key] by {
            let j = lemma_map_key(s, key);
            if j != n {
                assert(old_items[j] == s[j]);
                lemma_map_at(old_items, j);
            }
        }
        assert(m_new =~= m_old);
    }

    /// Takes out the entry with the given key, if any.
    pub fn remove(&mut self, key: &str) -> (r: Option<T>)
        ensures
            match r {
                Some(x) => old(self).map().contains_key(key@) && x == old(self).map()[key@]
                    && x.key_view() == key@,
                None => !old(self).map().contains_key(key@),
            },
            final(self).map() == old(self).map().remove(key@),
            forall|x: T| #[trigger] final(self).entries().contains(x) ==> old(self).entries().contains(x),
    {
        proof {
            use_type_invariant(&*self);
        }
        let ghost old_items = self.items@;
        let k = String::from_str(key);
        match self.position(&k) {
            Some(i) => {
                proof {
                    lemma_map_at(old_items, i as int);
                }
                let mut items: Vec<T> = Vec::new();
                std::mem::swap(&mut items, &mut self.items);
                let x = items.remove(i);
                proof {
                    let s = items@;
                    assert(forall|a: int| 0 <= a < s.len() ==> #[trigger] s[a] == old_items[if a < i { a } else { a + 1 }]);
                    assert(keys_unique(s)) by {
                        assert forall|a: int, b: int|
                            0 <= a < s.len() && 0 <= b < s.len() && a != b implies #[trigger] s[a].key_view()
                            != #[trigger] s[b].key_view() by {
                            let a2 = if a < i { a } else { a + 1 };
                            let b2 = if b < i { b } else { b + 1 };
                            assert(s[a] == old_items[a2]);
                            assert(s[b] == old_items[b2]);
                        }
                    }
                    let m_new = seq_to_map(s);
                    let m_old = seq_to_map(old_items).remove(key@);
                    assert forall|kk: Seq<char>| m_new.contains_key(kk) == m_old.contains_key(kk) by {
                        if m_new.contains_key(kk) {
                            let j = lemma_map_key(s, kk);
                            let j2 = if j < i { j } else { j + 1 };
                            assert(s[j] == old_items[j2]);
                            lemma_map_at(old_items, j2);
                        }
                        if m_old.contains_key(kk) {
                            let j = lemma_map_key(old_items, kk);
                            let j1 = if j < i { j } else { j - 1 };
                            assert(s[j1] == old_items[j]);
                            lemma_map_at(s, j1);
                        }
                    }
                    assert forall|kk: Seq<char>| #[trigger] m_new.contains_key(kk) implies m_new[kk]
                        == m_old[kk] by {
                        let j = lemma_map_key(s, kk);
                        let j2 = if j < i { j } else { j + 1 };
                        assert(s[j] == old_items[j2]);
                        lemma_map_at(old_items, j2);
                    }
                    assert(m_new =~= m_old);
                    assert forall|y: T| #[trigger] s.contains(y) implies old_items.contains(y) by {
                        let a = choose|a: int| 0 <= a < s.len() && s[a] == y;
                        let a2 = if a < i { a } else { a + 1 };
                        assert(old_items[a2] == y);
                    }
                }
                self.items = items;
                Some(x)
            },
            None => {
                proof {
                    assert(self.map() =~= old(self).map().remove(key@));
                }
                None
            },
        }
    }
}

} // verus!
