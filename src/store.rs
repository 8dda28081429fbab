//! A keyed table of persisted records: one namespace of the state store.
use vstd::prelude::*;

verus! {

/// The character sequences of a list of names.
pub open spec fn names_view(v: Seq<String>) -> Seq<Seq<char>> {
    v.map_values(|s: String| s@)
}

/// The set of names in a list.
pub open spec fn name_set(v: Seq<String>) -> Set<Seq<char>> {
    names_view(v).to_set()
}

proof fn lemma_push_contains<A>(s: Seq<A>, x: A, q: A)
    ensures
        s.push(x).contains(q) <==> (s.contains(q) || q == x),
{
    if s.push(x).contains(q) && q != x {
        let c = choose|c: int| 0 <= c < s.push(x).len() && s.push(x)[c] == q;
        assert(s[c] == q);
    }
    if s.contains(q) {
        let c = choose|c: int| 0 <= c < s.len() && s[c] == q;
        assert(s.push(x)[c] == q);
    }
    if q == x {
        assert(s.push(x)[s.len() as int] == q);
    }
}

/// Whether `name` occurs in `names`.
pub fn contains_name(names: &Vec<String>, name: &String) -> (r: bool)
    ensures
        r == names_view(names@).contains(name@),
{
    let mut i: usize = 0;
    while i < names.len()
        invariant
            i <= names@.len(),
            forall|j: int| 0 <= j < i ==> names@[j]@ != name@,
        decreases names@.len() - i,
    {
        if names[i] == *name {
            assert(names_view(names@)[i as int] == name@);
            return true;
        }
        i += 1;
    }
    proof {
        assert forall|j: int| 0 <= j < names_view(names@).len()
            implies names_view(names@)[j] != name@ by {
            assert(names@[j]@ != name@);
        }
    }
    false
}

/// Records of one kind, keyed by entity name; no key occurs twice.
pub struct Table<V> {
    entries: Vec<(String, V)>,
}

impl<V> Table<V> {
    pub closed spec fn key_at(self, i: int) -> Seq<char> {
        self.entries@[i].0@
    }

    /// Keys are unique.
    pub closed spec fn wf(self) -> bool {
        forall|i: int, j: int|
            0 <= i < self.entries@.len() && 0 <= j < self.entries@.len() && i != j
                ==> #[trigger] self.key_at(i) != #[trigger] self.key_at(j)
    }

    /// The records as a map from key to record.
    pub closed spec fn view(self) -> Map<Seq<char>, V> {
        Map::new(
            |k: Seq<char>| exists|i: int| 0 <= i < self.entries@.len() && self.key_at(i) == k,
            |k: Seq<char>|
                self.entries@[choose|i: int| 0 <= i < self.entries@.len() && self.key_at(i) == k].1,
        )
    }

    proof fn lemma_view_at(self, i: int)
        requires
            self.wf(),
            0 <= i < self.entries@.len(),
        ensures
            self@.contains_key(self.key_at(i)),
            self@[self.key_at(i)] == self.entries@[i].1,
    {
        let k = self.key_at(i);
        assert(self@.contains_key(k));
        let c = choose|c: int| 0 <= c < self.entries@.len() && self.key_at(c) == k;
        assert(c == i);
    }

    /// An empty table.
    pub fn new() -> (r: Self)
        ensures
            r.wf(),
            r@ == Map::<Seq<char>, V>::empty(),
    {
        let r = Table { entries: Vec::new() };
        assert(r@ =~= Map::<Seq<char>, V>::empty());
        r
    }

    /// The number of records.
    pub fn len(&self) -> (r: usize)
        requires
            self.wf(),
        ensures
            r as nat == self@.len(),
    {
        proof { self.lemma_len(); }
        self.entries.len()
    }

    proof fn lemma_len(self)
        requires
            self.wf(),
        ensures
            self@.dom().len() == self.entries@.len(),
            self@.dom().finite(),
        decreases self.entries@.len(),
    {
        let n = self.entries@.len();
        let ks = Seq::new(n, |i: int| self.key_at(i));
        assert forall|q: Seq<char>| self@.dom().contains(q) <==> ks.to_set().contains(q) by {
            if self@.dom().contains(q) {
                let c = choose|c: int| 0 <= c < self.entries@.len() && self.key_at(c) == q;
                assert(ks[c] == q);
            }
            if ks.to_set().contains(q) {
                let c = choose|c: int| 0 <= c < ks.len() && ks[c] == q;
                assert(self.key_at(c) == q);
            }
        }
        assert(self@.dom() =~= ks.to_set());
        assert forall|i: int, j: int| 0 <= i < j < ks.len() implies ks[i] != ks[j] by {
            assert(self.key_at(i) != self.key_at(j));
        }
        ks.unique_seq_to_set();
    }

    /// Position of the record under `key`, if any.
    fn find(&self, key: &String) -> (r: Option<usize>)
        requires
            self.wf(),
        ensures
            match r {
                Some(i) => i < self.entries@.len() && self.key_at(i as int) == key@,
                None => !self@.contains_key(key@),
            },
    {
        let mut i: usize = 0;
        while i < self.entries.len()
            invariant
                i <= self.entries@.len(),
                forall|j: int| 0 <= j < i ==> self.key_at(j) != key@,
            decreases self.entries@.len() - i,
        {
            if self.entries[i].0 == *key {
                return Some(i);
            }
            i += 1;
        }
        None
    }

    /// Whether a record is stored under `key`.
    pub fn contains_key(&self, key: &String) -> (r: bool)
        requires
            self.wf(),
        ensures
            r == self@.contains_key(key@),
    {
        match self.find(key) {
            Some(i) => {
                proof { self.lemma_view_at(i as int); }
                true
            },
            None => false,
        }
    }

    /// The record stored under `key`, or `None` when there is none.
    pub fn get(&self, key: &String) -> (r: Option<&V>)
        requires
            self.wf(),
        ensures
            match r {
                Some(v) => self@.contains_key(key@) && *v == self@[key@],
                None => !self@.contains_key(key@),
            },
    {
        match self.find(key) {
            Some(i) => {
                proof { self.lemma_view_at(i as int); }
                Some(&self.entries[i].1)
            },
            None => None,
        }
    }

    /// Stores `value` under `key`, replacing any record already there.
    pub fn set(&mut self, key: String, value: V)
        requires
            old(self).wf(),
        ensures
            final(self).wf(),
            final(self)@ == old(self)@.insert(key@, value),
    {
        let ghost k = key@;
        match self.find(&key) {
            Some(i) => {
                let ghost pre = *self;
                let ghost new_entries = self.entries@.update(i as int, (key, value));
                self.entries.set(i, (key, value));
                proof {
                    assert(self.entries@ == new_entries);
                    assert forall|j: int| 0 <= j < self.entries@.len() implies
                        #[trigger] self.key_at(j) == pre.key_at(j) by {}
                    let m = pre@.insert(k, value);
                    assert forall|q: Seq<char>| #[trigger] self@.contains_key(q) <==> m.contains_key(q) by {
                        if q == k {
                            assert(self.key_at(i as int) == q);
                        }
                        if m.contains_key(q) && q != k {
                            let c = choose|c: int| 0 <= c < pre.entries@.len() && pre.key_at(c) == q;
                            assert(self.key_at(c) == q);
                        }
                        if self@.contains_key(q) {
                            let c = choose|c: int| 0 <= c < self.entries@.len() && self.key_at(c) == q;
                            assert(pre.key_at(c) == q);
                            assert(pre@.contains_key(q));
                        }
                    }
                    assert forall|q: Seq<char>| #[trigger] self@.contains_key(q) implies self@[q] == m[q] by {
                        let c = choose|c: int| 0 <= c < self.entries@.len() && self.key_at(c) == q;
                        self.lemma_view_at(c);
                        if c != i {
                            pre.lemma_view_at(c);
                        }
                    }
                    assert(self@ =~= m);
                }
            },
            None => {
                let ghost pre = *self;
                self.entries.push((key, value));
                proof {
                    let n = pre.entries@.len() as int;
                    assert forall|j: int| 0 <= j < n implies #[trigger] self.key_at(j) == pre.key_at(j) by {}
                    assert(self.key_at(n) == k);
                    assert forall|j: int| 0 <= j < n implies #[trigger] pre.key_at(j) != k by {
                        if pre.key_at(j) == k {
                            assert(pre@.contains_key(k));
                        }
                    }
                    let m = pre@.insert(k, value);
                    assert forall|q: Seq<char>| #[trigger] self@.contains_key(q) <==> m.contains_key(q) by {
                        if q == k {
                            assert(self.key_at(n) == q);
                        }
                        if m.contains_key(q) && q != k {
                            let c = choose|c: int| 0 <= c < pre.entries@.len() && pre.key_at(c) == q;
                            assert(self.key_at(c) == q);
                        }
                        if self@.contains_key(q) {
                            let c = choose|c: int| 0 <= c < self.entries@.len() && self.key_at(c) == q;
                            if c < n {
                                assert(pre.key_at(c) == q);
                                assert(pre@.contains_key(q));
                            }
                            assert(m.contains_key(q));
                        }
                        if m.contains_key(q) {
                            assert(self@.contains_key(q));
                        }
                    }
                    assert forall|q: Seq<char>| #[trigger] self@.contains_key(q) implies self@[q] == m[q] by {
                        let c = choose|c: int| 0 <= c < self.entries@.len() && self.key_at(c) == q;
                        self.lemma_view_at(c);
                        if c < n {
                            pre.lemma_view_at(c);
                        }
                    }
                    assert(self@ =~= m);
                }
            },
        }
    }

    /// Removes the record under `key` and hands it out; `None` when there
    /// is none.
    pub fn take(&mut self, key: &String) -> (r: Option<V>)
        requires
            old(self).wf(),
        ensures
            final(self).wf(),
            final(self)@ == old(self)@.remove(key@),
            match r {
                Some(v) => old(self)@.contains_key(key@) && v == old(self)@[key@],
                None => !old(self)@.contains_key(key@),
            },
    {
        match self.find(key) {
            Some(i) => {
                let ghost pre = *self;
                let ghost k = key@;
                let (_, value) = self.entries.remove(i);
                proof {
                    pre.lemma_view_at(i as int);
                    let n = pre.entries@.len() as int;
                    assert forall|j: int| 0 <= j < self.entries@.len() implies
                        #[trigger] self.key_at(j) == (if j < i { pre.key_at(j) } else { pre.key_at(j + 1) }) by {}
                    assert forall|a: int, b: int|
                        0 <= a < self.entries@.len() && 0 <= b < self.entries@.len() && a != b
                        implies #[trigger] self.key_at(a) != #[trigger] self.key_at(b) by {
                        let pa = if a < i { a } else { a + 1 };
                        let pb = if b < i { b } else { b + 1 };
                        assert(pre.key_at(pa) != pre.key_at(pb));
                    }
                    let m = pre@.remove(k);
                    assert forall|q: Seq<char>| #[trigger] self@.contains_key(q) <==> m.contains_key(q) by {
                        if m.contains_key(q) {
                            let c = choose|c: int| 0 <= c < n && pre.key_at(c) == q;
                            assert(c != i);
                            let d = if c < i { c } else { c - 1 };
                            assert(self.key_at(d) == q);
                        }
                        if self@.contains_key(q) {
                            let c = choose|c: int| 0 <= c < self.entries@.len() && self.key_at(c) == q;
                            let pc = if c < i { c } else { c + 1 };
                            assert(pre.key_at(pc) == q);
                            assert(pc != i);
                            assert(pre@.contains_key(q));
                        }
                    }
                    assert forall|q: Seq<char>| #[trigger] self@.contains_key(q) implies self@[q] == m[q] by {
                        let c = choose|c: int| 0 <= c < self.entries@.len() && self.key_at(c) == q;
                        self.lemma_view_at(c);
                        let pc = if c < i { c } else { c + 1 };
                        pre.lemma_view_at(pc);
                    }
                    assert(self@ =~= m);
                }
                Some(value)
            },
            None => {
                assert(self@ =~= self@.remove(key@));
                None
            },
        }
    }

    /// Removes the record under `key`; tells whether there was one.
    pub fn delete(&mut self, key: &String) -> (r: bool)
        requires
            old(self).wf(),
        ensures
            final(self).wf(),
            r == old(self)@.contains_key(key@),
            final(self)@ == old(self)@.remove(key@),
    {
        self.take(key).is_some()
    }

    /// The keys of all records, each once.
    pub fn keys(&self) -> (r: Vec<String>)
        requires
            self.wf(),
        ensures
            name_set(r@) == self@.dom(),
            names_view(r@).no_duplicates(),
    {
        let mut r: Vec<String> = Vec::new();
        let mut i: usize = 0;
        while i < self.entries.len()
            invariant
                i <= self.entries@.len(),
                r@.len() == i,
                forall|j: int| 0 <= j < i ==> #[trigger] r@[j]@ == self.key_at(j),
            decreases self.entries@.len() - i,
        {
            r.push(self.entries[i].0.clone());
            i += 1;
        }
        proof {
            let nv = names_view(r@);
            assert forall|q: Seq<char>| name_set(r@).contains(q) <==> self@.dom().contains(q) by {
                if name_set(r@).contains(q) {
                    let c = choose|c: int| 0 <= c < nv.len() && nv[c] == q;
                    assert(self.key_at(c) == q);
                }
                if self@.dom().contains(q) {
                    let c = choose|c: int| 0 <= c < self.entries@.len() && self.key_at(c) == q;
                    assert(nv[c] == q);
                }
            }
            assert(name_set(r@) =~= self@.dom());
            assert forall|a: int, b: int| 0 <= a < nv.len() && 0 <= b < nv.len() && a != b
                implies nv[a] != nv[b] by {
                assert(self.key_at(a) != self.key_at(b));
            }
        }
        r
    }

    /// Deletes every record whose key is not among `live`, and returns the
    /// deleted keys.
    pub fn sweep(&mut self, live: &Vec<String>) -> (r: Vec<String>)
        requires
            old(self).wf(),
        ensures
            final(self).wf(),
            final(self)@ == old(self)@.restrict(name_set(live@)),
            name_set(r@) == old(self)@.dom().difference(name_set(live@)),
            names_view(r@).no_duplicates(),
    {
        let ghost pre = *self;
        let ghost ls = name_set(live@);
        let keys = self.keys();
        let mut deleted: Vec<String> = Vec::new();
        let mut j: usize = 0;
        while j < keys.len()
            invariant
                self.wf(),
                j <= keys@.len(),
                name_set(keys@) == pre@.dom(),
                names_view(keys@).no_duplicates(),
                ls == name_set(live@),
                forall|q: Seq<char>| #[trigger] self@.contains_key(q) <==> (pre@.contains_key(q)
                    && (ls.contains(q) || !names_view(keys@).subrange(0, j as int).contains(q))),
                forall|q: Seq<char>| #[trigger] self@.contains_key(q) ==> self@[q] == pre@[q],
                forall|q: Seq<char>| #[trigger] names_view(deleted@).contains(q) <==> (
                    names_view(keys@).subrange(0, j as int).contains(q) && !ls.contains(q)),
                names_view(deleted@).no_duplicates(),
            decreases keys@.len() - j,
        {
            let ghost kv = names_view(keys@);
            let ghost q0 = keys@[j as int]@;
            assert(kv.subrange(0, j + 1) == kv.subrange(0, j as int).push(q0));
            assert(!kv.subrange(0, j as int).contains(q0)) by {
                if kv.subrange(0, j as int).contains(q0) {
                    let c = choose|c: int| 0 <= c < j && kv.subrange(0, j as int)[c] == q0;
                    assert(kv[c] == kv[j as int]);
                }
            }
            assert(pre@.contains_key(q0)) by {
                assert(kv[j as int] == q0);
                assert(name_set(keys@).contains(q0));
            }
            if !contains_name(live, &keys[j]) {
                let ghost dv = names_view(deleted@);
                self.delete(&keys[j]);
                deleted.push(keys[j].clone());
                proof {
                    assert(names_view(deleted@) == dv.push(q0));
                    assert(!dv.contains(q0));
                    assert forall|q: Seq<char>| #[trigger] names_view(deleted@).contains(q) <==> (
                        kv.subrange(0, j + 1).contains(q) && !ls.contains(q)) by {
                        lemma_push_contains(dv, q0, q);
                        lemma_push_contains(kv.subrange(0, j as int), q0, q);
                    }
                    assert forall|q: Seq<char>| #[trigger] self@.contains_key(q) <==> (pre@.contains_key(q)
                        && (ls.contains(q) || !kv.subrange(0, j + 1).contains(q))) by {
                        lemma_push_contains(kv.subrange(0, j as int), q0, q);
                    }
                    assert forall|a: int, b: int| 0 <= a < b < names_view(deleted@).len()
                        implies names_view(deleted@)[a] != names_view(deleted@)[b] by {
                        if b == dv.len() {
                            assert(dv[a] == names_view(deleted@)[a]);
                        } else {
                            assert(dv[a] != dv[b]);
                        }
                    }
                }
            } else {
                proof {
                    assert(ls.contains(q0));
                    assert forall|q: Seq<char>| #[trigger] self@.contains_key(q) <==> (pre@.contains_key(q)
                        && (ls.contains(q) || !kv.subrange(0, j + 1).contains(q))) by {
                        lemma_push_contains(kv.subrange(0, j as int), q0, q);
                    }
                    assert forall|q: Seq<char>| #[trigger] names_view(deleted@).contains(q) <==> (
                        kv.subrange(0, j + 1).contains(q) && !ls.contains(q)) by {
                        lemma_push_contains(kv.subrange(0, j as int), q0, q);
                    }
                }
            }
            j += 1;
        }
        proof {
            assert(names_view(keys@).subrange(0, keys@.len() as int) == names_view(keys@));
            assert forall|q: Seq<char>| pre@.contains_key(q) implies names_view(keys@).contains(q) by {
                assert(name_set(keys@).contains(q));
            }
            assert(self@ =~= pre@.restrict(ls));
            assert forall|q: Seq<char>| name_set(deleted@).contains(q) <==> pre@.dom().difference(ls).contains(q) by {
                if name_set(deleted@).contains(q) {
                    assert(names_view(deleted@).contains(q));
                    assert(name_set(keys@).contains(q));
                }
                if pre@.dom().difference(ls).contains(q) {
                    assert(names_view(keys@).contains(q));
                    assert(names_view(deleted@).contains(q));
                }
            }
            assert(name_set(deleted@) =~= pre@.dom().difference(ls));
        }
        deleted
    }
}

} // verus!

verus! {

/// Storing a record and then looking its key up yields that very record,
/// whatever the table held before: `Table::set` leaves `records.insert(key,
/// record)` and `Table::get` returns the value at `key`.
pub proof fn law_set_then_get<V>(records: Map<Seq<char>, V>, key: Seq<char>, record: V)
    ensures
        records.insert(key, record).contains_key(key),
        records.insert(key, record)[key] == record,
        records.insert(key, record).remove(key) == records.remove(key),
{
    assert(records.insert(key, record).remove(key) =~= records.remove(key));
}

/// Sweeping twice with the same live ids: the second sweep deletes no key and
/// leaves the records as the first sweep left them (`Table::sweep` turns
/// `records` into `records.restrict(live)` and deletes
/// `records.dom().difference(live)`).
pub proof fn law_sweep_idempotent<V>(records: Map<Seq<char>, V>, live: Set<Seq<char>>)
    ensures
        records.restrict(live).dom().difference(live) == Set::<Seq<char>>::empty(),
        records.restrict(live).restrict(live) == records.restrict(live),
{
    assert(records.restrict(live).dom().difference(live) =~= Set::<Seq<char>>::empty());
    assert(records.restrict(live).restrict(live) =~= records.restrict(live));
}

} // verus!
