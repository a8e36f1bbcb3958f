//! Small string-keyed containers backed by vectors.
//!
//! The broker and the client sessions key their tables by identifiers that are
//! strings. These containers keep the entries in insertion order, look a key up
//! by comparing text, and expose a `Map` or `Set` over `Seq<char>` as their view.

use vstd::prelude::*;

verus! {

/// A map from strings to values in which no key occurs twice.
#[derive(Debug)]
pub struct StringMap<V> {
    pub keys: Vec<String>,
    pub values: Vec<V>,
}

impl<V> StringMap<V> {
    /// Keys and values are paired by position and keys are pairwise distinct.
    pub open spec fn wf(&self) -> bool {
        &&& self.keys@.len() == self.values@.len()
        &&& forall|i: int, j: int|
            0 <= i < j < self.keys@.len() ==> (#[trigger] self.keys@[i])@ != (#[trigger] self.keys@[j])@
    }

    /// True when `key` is the text of the key stored at position `i`.
    pub open spec fn key_at(&self, i: int, key: Seq<char>) -> bool {
        0 <= i < self.keys@.len() && self.keys@[i]@ == key
    }

    /// Some position that holds `key`; meaningful only when the key is present.
    pub open spec fn position(&self, key: Seq<char>) -> int {
        choose|i: int| self.key_at(i, key)
    }

    /// The map this container stands for.
    pub open spec fn view(&self) -> Map<Seq<char>, V> {
        Map::new(
            |k: Seq<char>| exists|i: int| self.key_at(i, k),
            |k: Seq<char>| self.values@[self.position(k)],
        )
    }

    /// In a well-formed container the entry at position `i` is the view's entry
    /// for the key stored there.
    pub proof fn lemma_entry(&self, i: int)
        requires
            self.wf(),
            0 <= i < self.keys@.len(),
        ensures
            self@.dom().contains(self.keys@[i]@),
            self@[self.keys@[i]@] == self.values@[i],
            self.position(self.keys@[i]@) == i,
    {
        let k = self.keys@[i]@;
        assert(self.key_at(i, k));
        let p = self.position(k);
        assert(self.key_at(p, k));
        if p < i {
            assert(self.keys@[p]@ != self.keys@[i]@);
        } else if i < p {
            assert(self.keys@[i]@ != self.keys@[p]@);
        }
    }

    /// Every key of the view is stored at some position.
    pub proof fn lemma_position(&self, key: Seq<char>)
        requires
            self.wf(),
            self@.dom().contains(key),
        ensures
            self.key_at(self.position(key), key),
            self@[key] == self.values@[self.position(key)],
    {
    }

    /// The view of a well-formed container has as many keys as the container
    /// has entries.
    pub proof fn lemma_finite(&self)
        requires
            self.wf(),
        ensures
            self@.dom().finite(),
            self@.dom().len() == self.keys@.len(),
    {
        let keys = self.keys@;
        let n = keys.len() as int;
        Self::lemma_finite_prefix(keys, n);
        assert(self@.dom() =~= Self::key_set(keys, n)) by {
            assert forall|k: Seq<char>| self@.dom().contains(k) implies Self::key_set(keys, n).contains(k) by {
                let i = choose|i: int| self.key_at(i, k);
                assert(keys[i]@ == k);
            }
            assert forall|k: Seq<char>| Self::key_set(keys, n).contains(k) implies self@.dom().contains(k) by {
                let i = choose|i: int| 0 <= i < n && (#[trigger] keys[i])@ == k;
                assert(self.key_at(i, k));
            }
        }
    }

    /// The texts of the first `n` keys, as a set.
    pub open spec fn key_set(keys: Seq<String>, n: int) -> Set<Seq<char>> {
        Set::new(|k: Seq<char>| exists|i: int| 0 <= i < n && (#[trigger] keys[i])@ == k)
    }

    /// Counts the first `n` keys of a duplicate-free key list.
    pub proof fn lemma_finite_prefix(keys: Seq<String>, n: int)
        requires
            0 <= n <= keys.len(),
            forall|i: int, j: int| 0 <= i < j < keys.len() ==> (#[trigger] keys[i])@ != (#[trigger] keys[j])@,
        ensures
            Self::key_set(keys, n).finite(),
            Self::key_set(keys, n).len() == n,
        decreases n,
    {
        if n == 0 {
            assert(Self::key_set(keys, 0) =~= Set::<Seq<char>>::empty());
        } else {
            Self::lemma_finite_prefix(keys, n - 1);
            let last = keys[n - 1]@;
            assert(!Self::key_set(keys, n - 1).contains(last)) by {
                if Self::key_set(keys, n - 1).contains(last) {
                    let i = choose|i: int| 0 <= i < n - 1 && (#[trigger] keys[i])@ == last;
                    assert(keys[i]@ != keys[n - 1]@);
                }
            }
            assert(Self::key_set(keys, n) =~= Self::key_set(keys, n - 1).insert(last)) by {
                assert forall|k: Seq<char>| Self::key_set(keys, n).contains(k) implies Self::key_set(
                    keys,
                    n - 1,
                ).insert(last).contains(k) by {
                    let i = choose|i: int| 0 <= i < n && (#[trigger] keys[i])@ == k;
                    if i < n - 1 {
                        assert(Self::key_set(keys, n - 1).contains(k));
                    }
                }
                assert forall|k: Seq<char>| Self::key_set(keys, n - 1).insert(last).contains(
                    k,
                ) implies Self::key_set(keys, n).contains(k) by {
                    if k == last {
                        assert(keys[n - 1]@ == k);
                    } else {
                        let i = choose|i: int| 0 <= i < n - 1 && (#[trigger] keys[i])@ == k;
                        assert(keys[i]@ == k);
                    }
                }
            }
        }
    }

    /// An empty map.
    pub fn new() -> (m: Self)
        ensures
            m.wf(),
            m@ == Map::<Seq<char>, V>::empty(),
            m.keys@.len() == 0,
    {
        let m = StringMap { keys: Vec::new(), values: Vec::new() };
        assert(m@ =~= Map::<Seq<char>, V>::empty());
        m
    }

    /// Number of entries.
    pub fn len(&self) -> (n: usize)
        requires
            self.wf(),
        ensures
            n == self.keys@.len(),
            n == self@.dom().len(),
    {
        proof {
            self.lemma_finite();
        }
        self.keys.len()
    }

    /// Whether the container is well formed.
    pub fn check_wf(&self) -> (ok: bool)
        ensures
            ok == self.wf(),
    {
        if self.keys.len() != self.values.len() {
            return false;
        }
        let mut j: usize = 0;
        while j < self.keys.len()
            invariant
                j <= self.keys@.len(),
                self.keys@.len() == self.values@.len(),
                forall|a: int, b: int| 0 <= a < b < j ==> (#[trigger] self.keys@[a])@ != (#[trigger] self.keys@[b])@,
            decreases self.keys@.len() - j,
        {
            let mut i: usize = 0;
            while i < j
                invariant
                    i <= j < self.keys@.len(),
                    forall|a: int| 0 <= a < i ==> (#[trigger] self.keys@[a])@ != self.keys@[j as int]@,
                decreases j - i,
            {
                if self.keys[i] == self.keys[j] {
                    return false;
                }
                i += 1;
            }
            j += 1;
        }
        true
    }

    /// The position that holds `key`, if any.
    pub fn find(&self, key: &String) -> (found: Option<usize>)
        requires
            self.wf(),
        ensures
            match found {
                Some(i) => self.key_at(i as int, key@) && self.position(key@) == i,
                None => !self@.dom().contains(key@),
            },
            found is Some <==> self@.dom().contains(key@),
    {
        let mut i: usize = 0;
        while i < self.keys.len()
            invariant
                self.wf(),
                i <= self.keys@.len(),
                forall|j: int| 0 <= j < i ==> !self.key_at(j, key@),
            decreases self.keys@.len() - i,
        {
            if self.keys[i] == *key {
                proof {
                    self.lemma_entry(i as int);
                }
                return Some(i);
            }
            i += 1;
        }
        None
    }

    /// Whether `key` has an entry.
    pub fn contains_key(&self, key: &String) -> (present: bool)
        requires
            self.wf(),
        ensures
            present == self@.dom().contains(key@),
    {
        self.find(key).is_some()
    }

    /// The value stored under `key`, if any.
    pub fn get(&self, key: &String) -> (value: Option<&V>)
        requires
            self.wf(),
        ensures
            match value {
                Some(v) => self@.dom().contains(key@) && *v == self@[key@],
                None => !self@.dom().contains(key@),
            },
    {
        match self.find(key) {
            Some(i) => Some(&self.values[i]),
            None => None,
        }
    }

    /// Stores `value` under `key`, replacing what was there.
    pub fn insert(&mut self, key: String, value: V)
        requires
            old(self).wf(),
        ensures
            final(self).wf(),
            final(self)@ == old(self)@.insert(key@, value),
    {
        match self.find(&key) {
            Some(i) => {
                self.values.set(i, value);
                proof {
                    assert(final(self).keys@ == old(self).keys@);
                    assert forall|k: Seq<char>| final(self)@.dom().contains(k) <==> old(self)@.insert(
                        key@,
                        value,
                    ).dom().contains(k) by {
                        if old(self)@.dom().contains(k) {
                            let j = choose|j: int| old(self).key_at(j, k);
                            assert(final(self).key_at(j, k));
                        }
                        if final(self)@.dom().contains(k) {
                            let j = choose|j: int| final(self).key_at(j, k);
                            assert(old(self).key_at(j, k));
                        }
                        if k == key@ {
                            assert(final(self).key_at(i as int, k));
                        }
                    }
                    assert forall|k: Seq<char>| final(self)@.dom().contains(k) implies final(self)@[k]
                        == old(self)@.insert(key@, value)[k] by {
                        let j = final(self).position(k);
                        assert(final(self).key_at(j, k));
                        final(self).lemma_entry(j);
                        old(self).lemma_entry(j);
                    }
                    assert(final(self)@ =~= old(self)@.insert(key@, value));
                }
            },
            None => {
                self.keys.push(key);
                self.values.push(value);
                proof {
                    let n = old(self).keys@.len() as int;
                    assert forall|i: int, j: int| 0 <= i < j < final(self).keys@.len() implies (
                    #[trigger] final(self).keys@[i])@ != (#[trigger] final(self).keys@[j])@ by {
                        if j == n {
                            assert(!old(self).key_at(i, key@));
                        }
                    }
                    assert forall|k: Seq<char>| final(self)@.dom().contains(k) <==> old(self)@.insert(
                        key@,
                        value,
                    ).dom().contains(k) by {
                        if old(self)@.dom().contains(k) {
                            let j = choose|j: int| old(self).key_at(j, k);
                            assert(final(self).key_at(j, k));
                        }
                        if final(self)@.dom().contains(k) {
                            let j = choose|j: int| final(self).key_at(j, k);
                            if j < n {
                                assert(old(self).key_at(j, k));
                            }
                        }
                        if k == key@ {
                            assert(final(self).key_at(n, k));
                        }
                    }
                    assert forall|k: Seq<char>| final(self)@.dom().contains(k) implies final(self)@[k]
                        == old(self)@.insert(key@, value)[k] by {
                        let j = final(self).position(k);
                        assert(final(self).key_at(j, k));
                        final(self).lemma_entry(j);
                        if j < n {
                            old(self).lemma_entry(j);
                        }
                    }
                    assert(final(self)@ =~= old(self)@.insert(key@, value));
                }
            },
        }
    }

    /// Takes the entry for `key` out, handing back its value if there was one.
    pub fn remove(&mut self, key: &String) -> (value: Option<V>)
        requires
            old(self).wf(),
        ensures
            final(self).wf(),
            final(self)@ == old(self)@.remove(key@),
            match value {
                Some(v) => old(self)@.dom().contains(key@) && v == old(self)@[key@],
                None => !old(self)@.dom().contains(key@),
            },
    {
        match self.find(key) {
            Some(i) => {
                self.keys.remove(i);
                let value = self.values.remove(i);
                proof {
                    let at = i as int;
                    old(self).lemma_entry(at);
                    assert forall|a: int, b: int| 0 <= a < b < final(self).keys@.len() implies (
                    #[trigger] final(self).keys@[a])@ != (#[trigger] final(self).keys@[b])@ by {
                        let a0 = if a < at { a } else { a + 1 };
                        let b0 = if b < at { b } else { b + 1 };
                        assert(old(self).keys@[a0]@ != old(self).keys@[b0]@);
                    }
                    assert forall|k: Seq<char>| final(self)@.dom().contains(k) <==> old(self)@.remove(
                        key@,
                    ).dom().contains(k) by {
                        if old(self)@.dom().contains(k) && k != key@ {
                            let j = choose|j: int| old(self).key_at(j, k);
                            let j1 = if j < at { j } else { j - 1 };
                            assert(final(self).key_at(j1, k));
                        }
                        if final(self)@.dom().contains(k) {
                            let j = choose|j: int| final(self).key_at(j, k);
                            let j0 = if j < at { j } else { j + 1 };
                            assert(old(self).key_at(j0, k));
                            if j0 < at {
                                assert(old(self).keys@[j0]@ != old(self).keys@[at]@);
                            } else {
                                assert(old(self).keys@[at]@ != old(self).keys@[j0]@);
                            }
                        }
                    }
                    assert forall|k: Seq<char>| final(self)@.dom().contains(k) implies final(self)@[k]
                        == old(self)@.remove(key@)[k] by {
                        let j = final(self).position(k);
                        assert(final(self).key_at(j, k));
                        final(self).lemma_entry(j);
                        let j0 = if j < at { j } else { j + 1 };
                        old(self).lemma_entry(j0);
                    }
                    assert(final(self)@ =~= old(self)@.remove(key@));
                }
                Some(value)
            },
            None => {
                assert(self@ =~= old(self)@.remove(key@));
                None
            },
        }
    }
}

/// A set of strings.
#[derive(Debug)]
pub struct StringSet {
    pub items: Vec<String>,
}

impl StringSet {
    /// The set this container stands for.
    pub open spec fn view(&self) -> Set<Seq<char>> {
        Set::new(|k: Seq<char>| exists|i: int| 0 <= i < self.items@.len() && (#[trigger] self.items@[i])@ == k)
    }

    /// No text is stored twice.
    pub open spec fn wf(&self) -> bool {
        forall|i: int, j: int|
            0 <= i < j < self.items@.len() ==> (#[trigger] self.items@[i])@ != (#[trigger] self.items@[j])@
    }

    /// Whether no text is stored twice.
    pub fn check_wf(&self) -> (ok: bool)
        ensures
            ok == self.wf(),
    {
        let mut j: usize = 0;
        while j < self.items.len()
            invariant
                j <= self.items@.len(),
                forall|a: int, b: int| 0 <= a < b < j ==> (#[trigger] self.items@[a])@ != (#[trigger] self.items@[b])@,
            decreases self.items@.len() - j,
        {
            let mut i: usize = 0;
            while i < j
                invariant
                    i <= j < self.items@.len(),
                    forall|a: int| 0 <= a < i ==> (#[trigger] self.items@[a])@ != self.items@[j as int]@,
                decreases j - i,
            {
                if self.items[i] == self.items[j] {
                    return false;
                }
                i += 1;
            }
            j += 1;
        }
        true
    }

    /// An empty set.
    pub fn new() -> (s: Self)
        ensures
            s.wf(),
            s@ == Set::<Seq<char>>::empty(),
    {
        let s = StringSet { items: Vec::new() };
        assert(s@ =~= Set::<Seq<char>>::empty());
        s
    }

    /// Whether `item` is a member.
    pub fn contains(&self, item: &String) -> (present: bool)
        ensures
            present == self@.contains(item@),
    {
        let mut i: usize = 0;
        while i < self.items.len()
            invariant
                i <= self.items@.len(),
                forall|j: int| 0 <= j < i ==> (#[trigger] self.items@[j])@ != item@,
            decreases self.items@.len() - i,
        {
            if self.items[i] == *item {
                return true;
            }
            i += 1;
        }
        false
    }

    /// Adds `item`; a member stays a member and nothing else changes.
    pub fn insert(&mut self, item: String)
        requires
            old(self).wf(),
        ensures
            final(self).wf(),
            final(self)@ == old(self)@.insert(item@),
    {
        if self.contains(&item) {
            assert(self@ =~= old(self)@.insert(item@));
        } else {
            self.items.push(item);
            proof {
                let n = old(self).items@.len() as int;
                assert forall|k: Seq<char>| final(self)@.contains(k) <==> old(self)@.insert(item@).contains(
                    k,
                ) by {
                    if old(self)@.contains(k) {
                        let j = choose|j: int| 0 <= j < n && (#[trigger] old(self).items@[j])@ == k;
                        assert(final(self).items@[j]@ == k);
                    }
                    if final(self)@.contains(k) {
                        let j = choose|j: int|
                            0 <= j < final(self).items@.len() && (#[trigger] final(self).items@[j])@ == k;
                        if j < n {
                            assert(old(self).items@[j]@ == k);
                        }
                    }
                    if k == item@ {
                        assert(final(self).items@[n]@ == k);
                    }
                }
                assert(final(self)@ =~= old(self)@.insert(item@));
            }
        }
    }
}

} // verus!
