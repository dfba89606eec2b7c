use vstd::prelude::*;

verus! {

/// Whether some entry of `s` has the key `id`.
pub open spec fn has_id<V>(s: Seq<(String, V)>, id: Seq<char>) -> bool {
    exists|i: int| 0 <= i < s.len() && (#[trigger] s[i]).0@ == id
}

/// No two entries of `s` have the same key.
pub open spec fn unique_ids<V>(s: Seq<(String, V)>) -> bool {
    forall|i: int, j: int|
        0 <= i < j < s.len() ==> (#[trigger] s[i]).0@ != (#[trigger] s[j]).0@
}

/// How many entries of `s` have the key `id`.
pub open spec fn count_id<V>(s: Seq<(String, V)>, id: Seq<char>) -> nat
    decreases s.len(),
{
    if s.len() == 0 {
        0
    } else {
        count_id(s.drop_last(), id) + if s.last().0@ == id { 1nat } else { 0nat }
    }
}

/// The list as a map from key to value.
pub open spec fn as_map<V>(s: Seq<(String, V)>) -> Map<Seq<char>, V> {
    Map::new(
        |id: Seq<char>| has_id(s, id),
        |id: Seq<char>| s[choose|i: int| 0 <= i < s.len() && (#[trigger] s[i]).0@ == id].1,
    )
}

/// A list of entries with distinct string keys. It keeps the order in which
/// keys were first inserted, so walking it is deterministic.
pub struct KeyedList<V> {
    entries: Vec<(String, V)>,
}

impl<V> View for KeyedList<V> {
    type V = Map<Seq<char>, V>;

    open spec fn view(&self) -> Map<Seq<char>, V> {
        as_map(self.entries())
    }
}

impl<V> KeyedList<V> {
    /// The entries in the order in which their keys were first inserted.
    pub closed spec fn entries(&self) -> Seq<(String, V)> {
        self.entries@
    }

    /// At most one entry per key.
    pub open spec fn wf(&self) -> bool {
        unique_ids(self.entries())
    }

    /// An empty list.
    pub fn new() -> (r: KeyedList<V>)
        ensures
            r.wf(),
            r@ == Map::<Seq<char>, V>::empty(),
            r.entries() == Seq::<(String, V)>::empty(),
    {
        let r = KeyedList { entries: Vec::new() };
        assert(r@ =~= Map::<Seq<char>, V>::empty());
        r
    }

    /// The position of the entry for `id`, which must be present.
    pub closed spec fn index_of(&self, id: Seq<char>) -> int {
        choose|i: int| 0 <= i < self.entries@.len() && (#[trigger] self.entries@[i]).0@ == id
    }

    /// Number of entries.
    pub fn len(&self) -> (r: usize)
        ensures
            r == self.entries().len(),
    {
        self.entries.len()
    }

    /// The entry at position `i`, in insertion order.
    pub fn entry_at(&self, i: usize) -> (r: (&String, &V))
        requires
            i < self.entries().len(),
        ensures
            *r.0 == self.entries()[i as int].0,
            *r.1 == self.entries()[i as int].1,
    {
        (&self.entries[i].0, &self.entries[i].1)
    }

    /// The position of the entry for `id`, if there is one.
    fn position(&self, id: &String) -> (r: Option<usize>)
        requires
            self.wf(),
        ensures
            match r {
                Some(i) => i < self.entries().len() && self.entries()[i as int].0@ == id@,
                None => !has_id(self.entries(), id@),
            },
    {
        let mut i: usize = 0;
        while i < self.entries.len()
            invariant
                i <= self.entries@.len(),
                forall|k: int| 0 <= k < i ==> (#[trigger] self.entries@[k]).0@ != id@,
            decreases self.entries@.len() - i,
        {
            if self.entries[i].0 == *id {
                return Some(i);
            }
            i = i + 1;
        }
        None
    }

    proof fn lemma_lookup(s: Seq<(String, V)>, i: int)
        requires
            unique_ids(s),
            0 <= i < s.len(),
        ensures
            as_map(s).contains_key(s[i].0@),
            as_map(s)[s[i].0@] == s[i].1,
    {
        let id = s[i].0@;
        assert(has_id(s, id));
        let j = choose|j: int| 0 <= j < s.len() && (#[trigger] s[j]).0@ == id;
        if j < i {
            assert(s[j].0@ != s[i].0@);
        } else if i < j {
            assert(s[i].0@ != s[j].0@);
        }
    }

    /// Whether an entry has this key.
    pub fn contains_key(&self, id: &String) -> (r: bool)
        requires
            self.wf(),
        ensures
            r == self@.contains_key(id@),
    {
        match self.position(id) {
            Some(i) => {
                proof { Self::lemma_lookup(self.entries@, i as int); }
                true
            },
            None => false,
        }
    }

    /// The value stored under `id`, if any.
    pub fn get(&self, id: &String) -> (r: Option<&V>)
        requires
            self.wf(),
        ensures
            match r {
                Some(e) => self@.contains_key(id@) && *e == self@[id@],
                None => !self@.contains_key(id@),
            },
    {
        match self.position(id) {
            Some(i) => {
                proof { Self::lemma_lookup(self.entries@, i as int); }
                Some(&self.entries[i].1)
            },
            None => None,
        }
    }

    /// Stores `value` under `key`. An entry with the same key has its value
    /// replaced in place; otherwise the entry goes last.
    pub fn insert(&mut self, key: String, value: V)
        requires
            old(self).wf(),
        ensures
            final(self).wf(),
            final(self)@ == old(self)@.insert(key@, value),
            final(self).entries() == if old(self)@.contains_key(key@) {
                old(self).entries().update(old(self).index_of(key@), (key, value))
            } else {
                old(self).entries().push((key, value))
            },
    {
        let ghost id = key@;
        let ghost old_s = self.entries@;
        let entry = (key, value);
        let ghost e = entry;
        match self.position(&entry.0) {
            Some(i) => {
                self.entries.set(i, entry);
                proof {
                    let s = self.entries@;
                    assert(s == old_s.update(i as int, e));
                    assert forall|a: int, b: int| 0 <= a < b < s.len() implies
                        (#[trigger] s[a]).0@ != (#[trigger] s[b]).0@ by {
                        if a == i as int {
                            assert(old_s[b].0@ != old_s[a].0@);
                        } else if b == i as int {
                            assert(old_s[a].0@ != old_s[b].0@);
                        } else {
                            assert(old_s[a].0@ != old_s[b].0@);
                        }
                    }
                    self.lemma_replace(old_s, i as int, e);
                }
            },
            None => {
                self.entries.push(entry);
                proof {
                    let s = self.entries@;
                    assert(s == old_s.push(e));
                    assert forall|a: int, b: int| 0 <= a < b < s.len() implies
                        (#[trigger] s[a]).0@ != (#[trigger] s[b]).0@ by {
                        if b == old_s.len() {
                            if s[a].0@ == id {
                                assert(old_s[a].0@ == id);
                                assert(has_id(old_s, id));
                            }
                        } else {
                            assert(old_s[a].0@ != old_s[b].0@);
                        }
                    }
                    self.lemma_append(old_s, e);
                }
            },
        }
    }

    proof fn lemma_replace(&self, old_s: Seq<(String, V)>, i: int, e: (String, V))
        requires
            unique_ids(old_s),
            unique_ids(self.entries@),
            0 <= i < old_s.len(),
            old_s[i].0@ == e.0@,
            self.entries@ == old_s.update(i, e),
        ensures
            as_map(self.entries@) == as_map(old_s).insert(e.0@, e.1),
    {
        let s = self.entries@;
        let m = as_map(old_s).insert(e.0@, e.1);
        assert forall|id: Seq<char>| #[trigger] has_id(s, id) == m.contains_key(id) by {
            if has_id(s, id) {
                let k = choose|k: int| 0 <= k < s.len() && (#[trigger] s[k]).0@ == id;
                if k != i {
                    assert(old_s[k].0@ == id);
                }
            }
            if has_id(old_s, id) {
                let k = choose|k: int| 0 <= k < old_s.len() && (#[trigger] old_s[k]).0@ == id;
                if k != i {
                    assert(s[k].0@ == id);
                } else {
                    assert(s[i].0@ == id);
                }
            }
        }
        assert forall|id: Seq<char>| #[trigger] m.contains_key(id) implies as_map(s)[id] == m[id] by {
            assert(has_id(s, id));
            let k = choose|k: int| 0 <= k < s.len() && (#[trigger] s[k]).0@ == id;
            Self::lemma_lookup(s, k);
            if k != i {
                assert(old_s[k] == s[k]);
                Self::lemma_lookup(old_s, k);
            }
        }
        assert(as_map(s) =~= m);
    }

    proof fn lemma_append(&self, old_s: Seq<(String, V)>, e: (String, V))
        requires
            unique_ids(old_s),
            unique_ids(self.entries@),
            !has_id(old_s, e.0@),
            self.entries@ == old_s.push(e),
        ensures
            as_map(self.entries@) == as_map(old_s).insert(e.0@, e.1),
    {
        let s = self.entries@;
        let m = as_map(old_s).insert(e.0@, e.1);
        let n = old_s.len() as int;
        assert forall|id: Seq<char>| #[trigger] has_id(s, id) == m.contains_key(id) by {
            if has_id(s, id) {
                let k = choose|k: int| 0 <= k < s.len() && (#[trigger] s[k]).0@ == id;
                if k < n {
                    assert(old_s[k].0@ == id);
                }
            }
            if has_id(old_s, id) {
                let k = choose|k: int| 0 <= k < old_s.len() && (#[trigger] old_s[k]).0@ == id;
                assert(s[k].0@ == id);
            }
            if id == e.0@ {
                assert(s[n].0@ == id);
            }
        }
        assert forall|id: Seq<char>| #[trigger] m.contains_key(id) implies as_map(s)[id] == m[id] by {
            assert(has_id(s, id));
            let k = choose|k: int| 0 <= k < s.len() && (#[trigger] s[k]).0@ == id;
            Self::lemma_lookup(s, k);
            if k < n {
                assert(old_s[k] == s[k]);
                Self::lemma_lookup(old_s, k);
            }
        }
        assert(as_map(s) =~= m);
    }
    /// Takes out the entry for `id`, if there is one, and returns its value.
    /// The other entries keep their order.
    pub fn remove(&mut self, id: &String) -> (r: Option<V>)
        requires
            old(self).wf(),
        ensures
            final(self).wf(),
            final(self)@ == old(self)@.remove(id@),
            match r {
                Some(v) => old(self)@.contains_key(id@) && v == old(self)@[id@],
                None => !old(self)@.contains_key(id@),
            },
    {
        let ghost old_s = self.entries@;
        match self.position(id) {
            Some(i) => {
                proof { Self::lemma_lookup(old_s, i as int); }
                let e = self.entries.remove(i);
                let (_, v) = e;
                proof {
                    let s = self.entries@;
                    assert(s == old_s.remove(i as int));
                    assert forall|a: int, b: int| 0 <= a < b < s.len() implies
                        (#[trigger] s[a]).0@ != (#[trigger] s[b]).0@ by {
                        let oa = if a < i { a } else { a + 1 };
                        let ob = if b < i { b } else { b + 1 };
                        assert(s[a] == old_s[oa]);
                        assert(s[b] == old_s[ob]);
                        assert(old_s[oa].0@ != old_s[ob].0@);
                    }
                    self.lemma_take_out(old_s, i as int);
                }
                Some(v)
            },
            None => {
                proof {
                    assert(!as_map(old_s).contains_key(id@));
                    assert(as_map(old_s).remove(id@) =~= as_map(old_s));
                }
                None
            },
        }
    }

    proof fn lemma_take_out(&self, old_s: Seq<(String, V)>, i: int)
        requires
            unique_ids(old_s),
            0 <= i < old_s.len(),
            self.entries@ == old_s.remove(i),
        ensures
            as_map(self.entries@) == as_map(old_s).remove(old_s[i].0@),
    {
        let s = self.entries@;
        let gone = old_s[i].0@;
        let m = as_map(old_s).remove(gone);
        assert forall|id: Seq<char>| #[trigger] has_id(s, id) == m.contains_key(id) by {
            if has_id(s, id) {
                let k = choose|k: int| 0 <= k < s.len() && (#[trigger] s[k]).0@ == id;
                let ok = if k < i { k } else { k + 1 };
                assert(s[k] == old_s[ok]);
                assert(has_id(old_s, id));
                if id == gone {
                    assert(old_s[ok].0@ == old_s[i].0@);
                    assert(ok != i);
                    if ok < i {
                        assert(old_s[ok].0@ != old_s[i].0@);
                    } else {
                        assert(old_s[i].0@ != old_s[ok].0@);
                    }
                }
            }
            if has_id(old_s, id) && id != gone {
                let k = choose|k: int| 0 <= k < old_s.len() && (#[trigger] old_s[k]).0@ == id;
                assert(k != i);
                let sk = if k < i { k } else { k - 1 };
                assert(s[sk] == old_s[k]);
                assert(has_id(s, id));
            }
        }
        assert forall|id: Seq<char>| #[trigger] m.contains_key(id) implies as_map(s)[id] == m[id] by {
            assert(has_id(s, id));
            let k = choose|k: int| 0 <= k < s.len() && (#[trigger] s[k]).0@ == id;
            let ok = if k < i { k } else { k + 1 };
            assert(s[k] == old_s[ok]);
            Self::lemma_unique_after_removal(old_s, i);
            Self::lemma_lookup(s, k);
            Self::lemma_lookup(old_s, ok);
        }
        assert(as_map(s) =~= m);
    }

    proof fn lemma_unique_after_removal(s: Seq<(String, V)>, i: int)
        requires
            unique_ids(s),
            0 <= i < s.len(),
        ensures
            unique_ids(s.remove(i)),
    {
        let r = s.remove(i);
        assert forall|a: int, b: int| 0 <= a < b < r.len() implies
            (#[trigger] r[a]).0@ != (#[trigger] r[b]).0@ by {
            let oa = if a < i { a } else { a + 1 };
            let ob = if b < i { b } else { b + 1 };
            assert(r[a] == s[oa]);
            assert(r[b] == s[ob]);
            assert(s[oa].0@ != s[ob].0@);
        }
    }
}

/// A well-formed list holds at most one entry for any key.
pub proof fn lemma_at_most_one_entry<V>(t: &KeyedList<V>, id: Seq<char>)
    requires
        t.wf(),
    ensures
        count_id(t.entries(), id) <= 1,
{
    lemma_count_unique(t.entries(), id);
}

proof fn lemma_count_unique<V>(s: Seq<(String, V)>, id: Seq<char>)
    requires
        unique_ids(s),
    ensures
        count_id(s, id) <= 1,
        count_id(s, id) == 1 <==> has_id(s, id),
    decreases s.len(),
{
    if s.len() > 0 {
        let p = s.drop_last();
        assert forall|a: int, b: int| 0 <= a < b < p.len() implies
            (#[trigger] p[a]).0@ != (#[trigger] p[b]).0@ by {
            assert(s[a].0@ != s[b].0@);
        }
        lemma_count_unique(p, id);
        let n = p.len() as int;
        if s.last().0@ == id && has_id(p, id) {
            let k = choose|k: int| 0 <= k < p.len() && (#[trigger] p[k]).0@ == id;
            assert(s[k].0@ != s[n].0@);
        }
        if has_id(s, id) {
            let k = choose|k: int| 0 <= k < s.len() && (#[trigger] s[k]).0@ == id;
            if k < n {
                assert(p[k].0@ == id);
            }
        }
        if has_id(p, id) {
            let k = choose|k: int| 0 <= k < p.len() && (#[trigger] p[k]).0@ == id;
            assert(s[k].0@ == id);
        }
        if s.last().0@ == id {
            assert(s[n].0@ == id);
        }
    }
}

} // verus!
