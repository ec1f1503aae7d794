use vstd::prelude::*;

verus! {

/// The map that takes each of `keys` to the value at its position. Where a
/// key occurs twice, the first position counts.
pub open spec fn table_of<T>(keys: Seq<Seq<char>>, values: Seq<T>) -> Map<Seq<char>, T> {
    Map::new(|k: Seq<char>| keys.contains(k), |k: Seq<char>| values[keys.index_of(k)])
}

/// A finite map from paths to values, kept in the order in which the paths
/// first came in. No path occurs twice.
pub struct Table<V> {
    keys: Vec<String>,
    values: Vec<V>,
}

impl<V: DeepView> Table<V> {
    /// The paths held, in order, each as its characters.
    pub closed spec fn paths(&self) -> Seq<Seq<char>> {
        self.keys.deep_view()
    }

    /// What the values held stand for, in the order of `paths`.
    pub closed spec fn entries(&self) -> Seq<V::V> {
        self.values.deep_view()
    }

    /// Every path has its value and none occurs twice.
    pub closed spec fn wf(&self) -> bool {
        &&& self.keys@.len() == self.values@.len()
        &&& self.paths().no_duplicates()
    }

    /// The map that the table stands for.
    pub closed spec fn view(&self) -> Map<Seq<char>, V::V> {
        table_of(self.paths(), self.entries())
    }

    /// What the paths and values say of the map, position by position.
    pub proof fn lemma_view(&self)
        requires
            self.wf(),
        ensures
            self.paths().len() == self.entries().len(),
            self.paths().no_duplicates(),
            self@ == table_of(self.paths(), self.entries()),
            forall|i: int|
                0 <= i < self.paths().len() ==> self@.contains_key(#[trigger] self.paths()[i])
                    && self@[self.paths()[i]] == self.entries()[i],
            forall|k: Seq<char>| self@.contains_key(k) <==> self.paths().contains(k),
    {
        assert forall|i: int| 0 <= i < self.paths().len() implies self@.contains_key(
            #[trigger] self.paths()[i],
        ) && self@[self.paths()[i]] == self.entries()[i] by {
            assert(self.paths().index_of(self.paths()[i]) == i);
        }
    }

    /// A table that holds nothing.
    pub fn new() -> (r: Self)
        ensures
            r.wf(),
            r@ == Map::<Seq<char>, V::V>::empty(),
            r.paths().len() == 0,
    {
        let r = Table { keys: Vec::new(), values: Vec::new() };
        r
    }

    /// The number of paths held.
    pub fn len(&self) -> (n: usize)
        requires
            self.wf(),
        ensures
            n == self.paths().len(),
    {
        self.keys.len()
    }

    /// The path at position `i`.
    pub fn path_at(&self, i: usize) -> (k: &String)
        requires
            self.wf(),
            i < self.paths().len(),
        ensures
            k@ == self.paths()[i as int],
    {
        &self.keys[i]
    }

    /// The value at position `i`.
    pub fn value_at(&self, i: usize) -> (v: &V)
        requires
            self.wf(),
            i < self.paths().len(),
        ensures
            v.deep_view() == self.entries()[i as int],
    {
        &self.values[i]
    }

    /// The paths held, in order.
    pub fn keys(&self) -> (r: &Vec<String>)
        ensures
            r.deep_view() == self.paths(),
    {
        &self.keys
    }

    /// The values held, in the order of the paths.
    pub fn values(&self) -> (r: &Vec<V>)
        ensures
            r.deep_view() == self.entries(),
    {
        &self.values
    }

    /// The table that takes each of `keys` to the value at its position in
    /// `values`; nothing where the two differ in length or a key occurs twice.
    pub fn from_parts(keys: Vec<String>, values: Vec<V>) -> (r: Option<Self>)
        ensures
            r is Some <==> keys.len() == values.len() && keys.deep_view().no_duplicates(),
            r matches Some(t) ==> t.wf() && t.paths() == keys.deep_view() && t.entries()
                == values.deep_view(),
    {
        if keys.len() != values.len() {
            return None;
        }
        let mut i: usize = 0;
        while i < keys.len()
            invariant
                i <= keys.len(),
                forall|a: int, b: int| 0 <= a < b < i ==> keys@[a]@ != keys@[b]@,
            decreases keys.len() - i,
        {
            let mut j: usize = 0;
            while j < i
                invariant
                    j <= i < keys.len(),
                    forall|a: int| 0 <= a < j ==> keys@[a]@ != keys@[i as int]@,
                decreases i - j,
            {
                if keys[j] == keys[i] {
                    assert(keys.deep_view()[j as int] == keys.deep_view()[i as int]);
                    return None;
                }
                j = j + 1;
            }
            i = i + 1;
        }
        assert forall|a: int, b: int|
            0 <= a < keys.deep_view().len() && 0 <= b < keys.deep_view().len() && a
                != b implies keys.deep_view()[a] != keys.deep_view()[b] by {
            assert(a < b || b < a);
        }
        Some(Table { keys, values })
    }

    /// The position of `key`, if the table holds it.
    pub fn position(&self, key: &String) -> (r: Option<usize>)
        requires
            self.wf(),
        ensures
            match r {
                Some(i) => i < self.paths().len() && self.paths()[i as int] == key@,
                None => !self@.contains_key(key@),
            },
    {
        let mut i: usize = 0;
        while i < self.keys.len()
            invariant
                i <= self.keys.len(),
                forall|j: int| 0 <= j < i ==> self.paths()[j] != key@,
            decreases self.keys.len() - i,
        {
            if self.keys[i] == *key {
                return Some(i);
            }
            i = i + 1;
        }
        None
    }

    /// Whether the table holds `key`.
    pub fn contains_key(&self, key: &String) -> (r: bool)
        requires
            self.wf(),
        ensures
            r == self@.contains_key(key@),
    {
        match self.position(key) {
            Some(_) => true,
            None => false,
        }
    }

    /// The value kept under `key`.
    pub fn get(&self, key: &String) -> (r: Option<&V>)
        requires
            self.wf(),
        ensures
            match r {
                Some(v) => self@.contains_key(key@) && self@[key@] == v.deep_view(),
                None => !self@.contains_key(key@),
            },
    {
        match self.position(key) {
            Some(i) => {
                proof {
                    self.lemma_view();
                }
                Some(&self.values[i])
            },
            None => None,
        }
    }

    /// Puts `value` under `key`. A path that is new goes to the end; one
    /// that was held keeps its place.
    pub fn insert(&mut self, key: String, value: V)
        requires
            old(self).wf(),
        ensures
            final(self).wf(),
            final(self)@ == old(self)@.insert(key@, value.deep_view()),
    {
        proof {
            self.lemma_view();
        }
        let ghost before = *self;
        match self.position(&key) {
            Some(i) => {
                self.values.set(i, value);
                assert(self@ =~= before@.insert(key@, value.deep_view())) by {
                    assert forall|k: Seq<char>| self@.contains_key(k) implies #[trigger] self@[k]
                        == before@.insert(key@, value.deep_view())[k] by {
                        assert(self.paths()[self.paths().index_of(k)] == k);
                    }
                }
            },
            None => {
                self.keys.push(key);
                self.values.push(value);
                assert(self.paths() =~= before.paths().push(key@));
                assert(self@ =~= before@.insert(key@, value.deep_view())) by {
                    assert forall|k: Seq<char>|
                        before@.insert(key@, value.deep_view()).contains_key(
                            k,
                        ) implies self@.contains_key(k) by {
                        if k == key@ {
                            assert(self.paths()[before.paths().len() as int] == k);
                        } else {
                            let j = before.paths().index_of(k);
                            assert(self.paths()[j] == k);
                        }
                    }
                    assert forall|k: Seq<char>| self@.contains_key(k) implies #[trigger] self@[k]
                        == before@.insert(key@, value.deep_view())[k] by {
                        assert(self.paths()[self.paths().index_of(k)] == k);
                    }
                }
            },
        }
    }

    /// Takes `key` and its value out, and says whether it was held. The
    /// paths that stay keep their order.
    pub fn remove(&mut self, key: &String) -> (r: bool)
        requires
            old(self).wf(),
        ensures
            final(self).wf(),
            r == old(self)@.contains_key(key@),
            final(self)@ == old(self)@.remove(key@),
    {
        proof {
            self.lemma_view();
        }
        let ghost before = *self;
        match self.position(key) {
            Some(i) => {
                self.keys.remove(i);
                self.values.remove(i);
                assert(self.paths() =~= before.paths().remove(i as int));
                assert(self@ =~= before@.remove(key@)) by {
                    assert forall|k: Seq<char>| self@.contains_key(k) implies before@.remove(
                        key@,
                    ).contains_key(k) && #[trigger] self@[k] == before@.remove(key@)[k] by {
                        assert(self.paths()[self.paths().index_of(k)] == k);
                    }
                    assert forall|k: Seq<char>| before@.remove(key@).contains_key(
                        k,
                    ) implies self@.contains_key(k) by {
                        let j0 = before.paths().index_of(k);
                        let j = if j0 < i { j0 } else { j0 - 1 };
                        assert(self.paths()[j] == k);
                    }
                }
                true
            },
            None => {
                false
            },
        }
    }
}

} // verus!
