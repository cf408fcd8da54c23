use vstd::prelude::*;

verus! {

/// The value filed under `name` in `m`, if any.
pub open spec fn entry_of<T>(m: Map<Seq<char>, T>, name: Seq<char>) -> Option<T> {
    if m.contains_key(name) {
        Some(m[name])
    } else {
        None
    }
}

/// What filing `entries` one after the other gives: a later entry replaces
/// an earlier one of the same name.
pub open spec fn filed<T>(entries: Seq<(String, T)>) -> Map<Seq<char>, T>
    decreases entries.len(),
{
    if entries.len() == 0 {
        Map::empty()
    } else {
        filed(entries.drop_last()).insert(entries.last().0@, entries.last().1)
    }
}

/// Values kept by name, each name at most once; a later value under the
/// same name replaces the earlier one.
pub struct NameMap<V> {
    entries: Vec<(String, V)>,
}

impl<V> NameMap<V> {
    /// The names, in the order in which they were first given.
    pub closed spec fn keys(self) -> Seq<Seq<char>> {
        self.entries@.map_values(|e: (String, V)| e.0@)
    }

    /// The values, in the order of `keys`.
    pub closed spec fn values(self) -> Seq<V> {
        self.entries@.map_values(|e: (String, V)| e.1)
    }

    /// No name occurs twice.
    pub closed spec fn wf(self) -> bool {
        forall|i: int, j: int|
            0 <= i < j < self.entries@.len() ==> #[trigger] self.entries@[i].0@ != #[trigger] self.entries@[j].0@
    }

    spec fn index_of(self, name: Seq<char>) -> int {
        choose|i: int| 0 <= i < self.entries@.len() && #[trigger] self.entries@[i].0@ == name
    }

    spec fn has(self, name: Seq<char>) -> bool {
        exists|i: int| 0 <= i < self.entries@.len() && #[trigger] self.entries@[i].0@ == name
    }

    /// The map from names to values.
    pub closed spec fn view(self) -> Map<Seq<char>, V> {
        Map::new(|k: Seq<char>| self.has(k), |k: Seq<char>| self.entries@[self.index_of(k)].1)
    }

    proof fn lemma_index(self, i: int)
        requires
            self.wf(),
            0 <= i < self.entries@.len(),
        ensures
            self.has(self.entries@[i].0@),
            self.index_of(self.entries@[i].0@) == i,
    {
        let k = self.entries@[i].0@;
        assert(self.has(k));
        let j = self.index_of(k);
        if j != i {
            if j < i {
                assert(self.entries@[j].0@ != self.entries@[i].0@);
            } else {
                assert(self.entries@[i].0@ != self.entries@[j].0@);
            }
        }
    }

    /// The keys and the values describe the map, position by position.
    pub proof fn lemma_keys_values(self)
        requires
            self.wf(),
        ensures
            self.keys().len() == self.values().len(),
            forall|i: int| 0 <= i < self.keys().len() ==> #[trigger] self@.contains_key(self.keys()[i]),
            forall|i: int| 0 <= i < self.keys().len() ==> self@[self.keys()[i]] == #[trigger] self.values()[i],
            forall|k: Seq<char>| #[trigger] self@.contains_key(k) ==> self.keys().contains(k),
    {
        assert forall|i: int| 0 <= i < self.keys().len() implies #[trigger] self@.contains_key(self.keys()[i])
            && self@[self.keys()[i]] == self.values()[i] by {
            self.lemma_index(i);
        }
        assert forall|k: Seq<char>| #[trigger] self@.contains_key(k) implies self.keys().contains(k) by {
            let i = self.index_of(k);
            assert(self.keys()[i] == k);
        }
    }

    /// An empty map.
    pub fn new() -> (r: Self)
        ensures
            r.wf(),
            r@ == Map::<Seq<char>, V>::empty(),
            r.keys() == Seq::<Seq<char>>::empty(),
    {
        let r = NameMap { entries: Vec::new() };
        assert(r@ =~= Map::<Seq<char>, V>::empty());
        assert(r.keys() =~= Seq::<Seq<char>>::empty());
        r
    }

    /// Number of names held.
    pub fn len(&self) -> (n: usize)
        ensures
            n == self.keys().len(),
    {
        self.entries.len()
    }

    /// Where `name` is held, if anywhere.
    pub fn find(&self, name: &String) -> (r: Option<usize>)
        requires
            self.wf(),
        ensures
            r matches Some(i) ==> i < self.keys().len() && self.keys()[i as int] == name@,
            r is None <==> !self@.contains_key(name@),
    {
        let mut i: usize = 0;
        while i < self.entries.len()
            invariant
                self.wf(),
                i <= self.entries@.len(),
                forall|j: int| 0 <= j < i ==> #[trigger] self.entries@[j].0@ != name@,
            decreases self.entries@.len() - i,
        {
            if self.entries[i].0 == *name {
                proof {
                    self.lemma_index(i as int);
                }
                return Some(i);
            }
            i = i + 1;
        }
        proof {
            if self.has(name@) {
                let j = self.index_of(name@);
                assert(self.entries@[j].0@ == name@);
            }
        }
        None
    }

    /// The name at position `i`.
    pub fn key_at(&self, i: usize) -> (r: &String)
        requires
            i < self.keys().len(),
        ensures
            r@ == self.keys()[i as int],
    {
        &self.entries[i].0
    }

    /// The value at position `i`.
    pub fn value_at(&self, i: usize) -> (r: &V)
        requires
            i < self.keys().len(),
        ensures
            *r == self.values()[i as int],
    {
        &self.entries[i].1
    }

    /// The value held under `name`, if any.
    pub fn get(&self, name: &String) -> (r: Option<&V>)
        requires
            self.wf(),
        ensures
            r matches Some(v) ==> self@.contains_key(name@) && *v == self@[name@],
            r is None <==> !self@.contains_key(name@),
    {
        match self.find(name) {
            Some(i) => {
                proof {
                    self.lemma_index(i as int);
                }
                Some(&self.entries[i].1)
            },
            None => None,
        }
    }

    /// Files `entries` one after the other; a later entry replaces an
    /// earlier one of the same name.
    pub fn from_entries(entries: Vec<(String, V)>) -> (r: Self)
        ensures
            r.wf(),
            r@ == filed(entries@),
    {
        let ghost all = entries@;
        let mut r: NameMap<V> = NameMap::new();
        let mut rest = entries;
        let ghost mut i: int = 0;
        while rest.len() > 0
            invariant
                r.wf(),
                0 <= i <= all.len(),
                rest@ == all.skip(i),
                r@ == filed(all.take(i)),
            decreases rest@.len(),
        {
            let (name, value) = rest.remove(0);
            proof {
                assert(all[i] == (name, value));
                assert(all.take(i + 1).drop_last() =~= all.take(i));
                i = i + 1;
                assert(rest@ =~= all.skip(i));
            }
            r.insert(name, value);
        }
        proof {
            assert(all.take(i) =~= all);
        }
        r
    }

    /// Holds `value` under `name`, replacing what was there.
    pub fn insert(&mut self, name: String, value: V)
        requires
            old(self).wf(),
        ensures
            final(self).wf(),
            final(self)@ == old(self)@.insert(name@, value),
            old(self)@.contains_key(name@) ==> final(self).keys() == old(self).keys(),
            !old(self)@.contains_key(name@) ==> final(self).keys() == old(self).keys().push(name@),
    {
        let ghost k = name@;
        match self.find(&name) {
            Some(i) => {
                let ghost pre = *self;
                self.entries.set(i, (name, value));
                proof {
                    assert forall|a: int, b: int| 0 <= a < b < self.entries@.len() implies
                        #[trigger] self.entries@[a].0@ != #[trigger] self.entries@[b].0@ by {
                        assert(pre.entries@[a].0@ != pre.entries@[b].0@);
                    }
                    self.lemma_index(i as int);
                    assert forall|q: Seq<char>| #[trigger] self.has(q) == pre.has(q) by {
                        if self.has(q) {
                            let j = self.index_of(q);
                            assert(pre.entries@[j].0@ == q);
                        }
                        if pre.has(q) {
                            let j = pre.index_of(q);
                            assert(self.entries@[j].0@ == q);
                        }
                    }
                    assert forall|q: Seq<char>| self.has(q) && q != k implies
                        #[trigger] self.index_of(q) == pre.index_of(q) by {
                        pre.lemma_index(pre.index_of(q));
                        self.lemma_index(pre.index_of(q));
                    }
                    assert(self@ =~= pre@.insert(k, value));
                    assert(self.keys() =~= pre.keys());
                }
            },
            None => {
                let ghost pre = *self;
                self.entries.push((name, value));
                proof {
                    let n = pre.entries@.len() as int;
                    assert forall|a: int, b: int| 0 <= a < b < self.entries@.len() implies
                        #[trigger] self.entries@[a].0@ != #[trigger] self.entries@[b].0@ by {
                        if b < n {
                            assert(pre.entries@[a].0@ != pre.entries@[b].0@);
                        } else {
                            assert(pre.entries@[a].0@ == self.entries@[a].0@);
                            if pre.entries@[a].0@ == k {
                                assert(pre.has(k));
                            }
                        }
                    }
                    self.lemma_index(n);
                    assert forall|q: Seq<char>| #[trigger] self.has(q) == (pre.has(q) || q == k) by {
                        if self.has(q) && q != k {
                            let j = self.index_of(q);
                            assert(j < n);
                            assert(pre.entries@[j].0@ == q);
                        }
                        if pre.has(q) {
                            let j = pre.index_of(q);
                            assert(self.entries@[j].0@ == q);
                        }
                    }
                    assert forall|q: Seq<char>| pre.has(q) implies
                        #[trigger] self.index_of(q) == pre.index_of(q) by {
                        pre.lemma_index(pre.index_of(q));
                        self.lemma_index(pre.index_of(q));
                    }
                    assert(self@ =~= pre@.insert(k, value));
                    assert(self.keys() =~= pre.keys().push(k));
                }
            },
        }
    }

    /// Exchanges the value held under `name` with `value`; tells whether
    /// `name` was held. Where it was not, nothing changes.
    pub fn swap_value(&mut self, name: &String, value: &mut V) -> (held: bool)
        requires
            old(self).wf(),
        ensures
            final(self).wf(),
            final(self).keys() == old(self).keys(),
            held == old(self)@.contains_key(name@),
            held ==> final(self)@ == old(self)@.insert(name@, *old(value)),
            held ==> *final(value) == old(self)@[name@],
            !held ==> final(self)@ == old(self)@ && *final(value) == *old(value),
    {
        match self.find(name) {
            Some(i) => {
                let ghost pre = *self;
                let ghost k = name@;
                let ghost v0 = *value;
                proof {
                    pre.lemma_index(i as int);
                }
                self.swap_at(i, value);
                proof {
                    assert forall|a: int, b: int| 0 <= a < b < self.entries@.len() implies
                        #[trigger] self.entries@[a].0@ != #[trigger] self.entries@[b].0@ by {
                        assert(pre.entries@[a].0@ != pre.entries@[b].0@);
                    }
                    self.lemma_index(i as int);
                    assert forall|q: Seq<char>| #[trigger] self.has(q) == pre.has(q) by {
                        if self.has(q) {
                            let j = self.index_of(q);
                            assert(pre.entries@[j].0@ == q);
                        }
                        if pre.has(q) {
                            let j = pre.index_of(q);
                            assert(self.entries@[j].0@ == q);
                        }
                    }
                    assert forall|q: Seq<char>| self.has(q) && q != k implies
                        #[trigger] self.index_of(q) == pre.index_of(q) by {
                        pre.lemma_index(pre.index_of(q));
                        self.lemma_index(pre.index_of(q));
                    }
                    assert(self@ =~= pre@.insert(k, v0));
                    assert(self.keys() =~= pre.keys());
                }
                true
            },
            None => false,
        }
    }

    /// Moves every name of `other` into `self`; where both hold a name,
    /// the value of `other` wins.
    pub fn append(&mut self, other: NameMap<V>)
        requires
            old(self).wf(),
            other.wf(),
        ensures
            final(self).wf(),
            final(self)@ == old(self)@.union_prefer_right(other@),
            final(self).keys() == old(self).keys() + other.keys().filter(|k: Seq<char>| !old(self)@.contains_key(k)),
    {
        let ghost start = *self;
        let ghost orig = other.entries@;
        let mut rest = other.entries;
        let ghost mut i: int = 0;
        while rest.len() > 0
            invariant
                self.wf(),
                0 <= i <= orig.len(),
                rest@ == orig.skip(i),
                other.entries@ == orig,
                other.wf(),
                self@ == start@.union_prefer_right(
                    other@.restrict(Set::new(|k: Seq<char>| exists|j: int| 0 <= j < i && orig[j].0@ == k)),
                ),
                self.keys() == start.keys() + other.keys().take(i).filter(|k: Seq<char>| !start@.contains_key(k)),
            decreases rest@.len(),
        {
            let (k, v) = rest.remove(0);
            proof {
                other.lemma_index(i);
                assert(orig[i] == (k, v));
            }
            let ghost before = *self;
            self.insert(k, v);
            proof {
                let done_before = Set::new(|q: Seq<char>| exists|j: int| 0 <= j < i && orig[j].0@ == q);
                let done_after = Set::new(|q: Seq<char>| exists|j: int| 0 <= j < i + 1 && orig[j].0@ == q);
                assert forall|q: Seq<char>| done_after.contains(q) == (done_before.contains(q) || q == k@) by {
                    if done_after.contains(q) && q != k@ {
                        let j = choose|j: int| 0 <= j < i + 1 && orig[j].0@ == q;
                        assert(j != i);
                        assert(done_before.contains(q));
                    }
                    if done_before.contains(q) {
                        let j = choose|j: int| 0 <= j < i && orig[j].0@ == q;
                        assert(0 <= j < i + 1 && orig[j].0@ == q);
                    }
                    if q == k@ {
                        assert(orig[i].0@ == q);
                    }
                }
                assert(self@ =~= start@.union_prefer_right(other@.restrict(done_after)));
                let pred = |q: Seq<char>| !start@.contains_key(q);
                assert(other.keys().take(i + 1).drop_last() =~= other.keys().take(i));
                assert(other.keys()[i] == k@);
                reveal_with_fuel(Seq::filter, 1);
                if !start@.contains_key(k@) {
                    if before@.contains_key(k@) {
                        let j = choose|j: int| 0 <= j < i && orig[j].0@ == k@;
                        assert(orig[j].0@ != orig[i].0@);
                    }
                    assert(self.keys() =~= start.keys() + other.keys().take(i + 1).filter(pred));
                } else {
                    assert(self.keys() =~= start.keys() + other.keys().take(i + 1).filter(pred));
                }
                i = i + 1;
                assert(rest@ =~= orig.skip(i));
            }
        }
        proof {
            let done = Set::new(|q: Seq<char>| exists|j: int| 0 <= j < i && orig[j].0@ == q);
            assert(i == orig.len());
            assert forall|q: Seq<char>| #[trigger] other@.contains_key(q) implies done.contains(q) by {
                let j = other.index_of(q);
                assert(orig[j].0@ == q);
            }
            assert(other@.restrict(done) =~= other@);
            assert(other.keys().take(i) =~= other.keys());
        }
    }

    fn swap_at(&mut self, i: usize, value: &mut V)
        requires
            i < old(self).entries@.len(),
        ensures
            final(self).entries@.len() == old(self).entries@.len(),
            final(self).entries@[i as int].0 == old(self).entries@[i as int].0,
            final(self).entries@[i as int].1 == *old(value),
            *final(value) == old(self).entries@[i as int].1,
            forall|j: int| 0 <= j < final(self).entries@.len() && j != i ==> final(self).entries@[j] == old(self).entries@[j],
    {
        std::mem::swap(&mut self.entries[i].1, value);
    }
}

} // verus!
