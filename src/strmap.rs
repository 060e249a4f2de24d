//! A finite map keyed by strings, held as parallel vectors of distinct keys
//! and their values, and seen as a `Map` from key characters to values.
use vstd::prelude::*;

verus! {

/// A map from string keys to values.
pub struct StrMap<V> {
    keys: Vec<String>,
    vals: Vec<V>,
    m: Ghost<Map<Seq<char>, V>>,
}

impl<V> View for StrMap<V> {
    type V = Map<Seq<char>, V>;

    closed spec fn view(&self) -> Map<Seq<char>, V> {
        self.m@
    }
}

impl<V> StrMap<V> {
    /// Keys are distinct and the vectors agree with the map.
    pub closed spec fn wf(&self) -> bool {
        &&& self.keys@.len() == self.vals@.len()
        &&& forall|i: int, j: int|
            0 <= i < j < self.keys@.len() ==> #[trigger] self.keys@[i]@ != #[trigger] self.keys@[j]@
        &&& forall|i: int|
            0 <= i < self.keys@.len() ==> {
                &&& self.m@.contains_key(#[trigger] self.keys@[i]@)
                &&& self.m@[self.keys@[i]@] == self.vals@[i]
            }
        &&& forall|k: Seq<char>|
            #[trigger] self.m@.contains_key(k) ==> exists|i: int|
                0 <= i < self.keys@.len() && #[trigger] self.keys@[i]@ == k
    }

    /// The number of entries.
    pub closed spec fn size(&self) -> nat {
        self.keys@.len()
    }

    /// The key stored at position `i`.
    pub closed spec fn key_spec(&self, i: int) -> Seq<char> {
        self.keys@[i]@
    }

    /// Positions enumerate the keys of the map, each once.
    pub proof fn lemma_positions(&self)
        requires
            self.wf(),
        ensures
            forall|i: int| 0 <= i < self.size() ==> self@.contains_key(#[trigger] self.key_spec(i)),
            forall|k: Seq<char>|
                #[trigger] self@.contains_key(k) ==> exists|i: int|
                    0 <= i < self.size() && #[trigger] self.key_spec(i) == k,
            forall|i: int, j: int|
                0 <= i < j < self.size() ==> #[trigger] self.key_spec(i) != #[trigger] self.key_spec(
                    j,
                ),
    {
        assert forall|k: Seq<char>| #[trigger] self@.contains_key(k) implies exists|i: int|
            0 <= i < self.size() && #[trigger] self.key_spec(i) == k by {
            let i = choose|i: int| 0 <= i < self.keys@.len() && #[trigger] self.keys@[i]@ == k;
            assert(self.key_spec(i) == k);
        }
    }

    /// The empty map.
    pub fn new() -> (r: Self)
        ensures
            r.wf(),
            r@ == Map::<Seq<char>, V>::empty(),
    {
        StrMap { keys: Vec::new(), vals: Vec::new(), m: Ghost(Map::empty()) }
    }

    /// The number of entries.
    pub fn len(&self) -> (r: usize)
        requires
            self.wf(),
        ensures
            r == self.size(),
            r == self@.dom().len(),
    {
        proof {
            self.lemma_dom_len();
        }
        self.keys.len()
    }

    proof fn lemma_dom_len(&self)
        requires
            self.wf(),
        ensures
            self@.dom().len() == self.size(),
            self@.dom().finite(),
        decreases self.keys@.len(),
    {
        let ks = self.keys@.map_values(|s: String| s@);
        assert(ks.no_duplicates()) by {
            assert forall|i: int, j: int| 0 <= i < ks.len() && 0 <= j < ks.len() && i != j implies ks[i]
                != ks[j] by {
                if i < j {
                    assert(self.keys@[i]@ != self.keys@[j]@);
                } else {
                    assert(self.keys@[j]@ != self.keys@[i]@);
                }
            }
        }
        assert(self@.dom() =~= ks.to_set()) by {
            assert forall|k: Seq<char>| self@.dom().contains(k) implies ks.to_set().contains(k) by {
                let i = choose|i: int| 0 <= i < self.keys@.len() && #[trigger] self.keys@[i]@ == k;
                assert(ks[i] == k);
            }
            assert forall|k: Seq<char>| ks.to_set().contains(k) implies self@.dom().contains(k) by {
                let i = choose|i: int| 0 <= i < ks.len() && ks[i] == k;
                assert(self.m@.contains_key(self.keys@[i]@));
            }
        }
        ks.unique_seq_to_set();
    }

    /// The key at position `i`.
    pub fn key_at(&self, i: usize) -> (r: &String)
        requires
            self.wf(),
            i < self.size(),
        ensures
            r@ == self.key_spec(i as int),
            self@.contains_key(r@),
    {
        &self.keys[i]
    }

    /// The value at position `i`.
    pub fn value_at(&self, i: usize) -> (r: &V)
        requires
            self.wf(),
            i < self.size(),
        ensures
            self@.contains_key(self.key_spec(i as int)),
            *r == self@[self.key_spec(i as int)],
    {
        &self.vals[i]
    }

    /// The position of key `k`, if present.
    pub fn find(&self, k: &str) -> (r: Option<usize>)
        requires
            self.wf(),
        ensures
            r.is_none() <==> !self@.contains_key(k@),
            r matches Some(i) ==> i < self.size() && self.key_spec(i as int) == k@,
    {
        let mut i: usize = 0;
        while i < self.keys.len()
            invariant
                self.wf(),
                i <= self.keys@.len(),
                forall|j: int| 0 <= j < i ==> self.keys@[j]@ != k@,
            decreases self.keys@.len() - i,
        {
            if crate::text::same_text(self.keys[i].as_str(), k) {
                return Some(i);
            }
            i = i + 1;
        }
        proof {
            if self.m@.contains_key(k@) {
                let j = choose|j: int| 0 <= j < self.keys@.len() && #[trigger] self.keys@[j]@ == k@;
                assert(self.keys@[j]@ == k@);
            }
        }
        None
    }

    /// Whether `k` is a key.
    pub fn contains_key(&self, k: &str) -> (r: bool)
        requires
            self.wf(),
        ensures
            r == self@.contains_key(k@),
    {
        self.find(k).is_some()
    }

    /// The value under `k`, if any.
    pub fn get(&self, k: &str) -> (r: Option<&V>)
        requires
            self.wf(),
        ensures
            r.is_none() <==> !self@.contains_key(k@),
            r matches Some(v) ==> *v == self@[k@],
    {
        match self.find(k) {
            Some(i) => Some(&self.vals[i]),
            None => None,
        }
    }

    /// Puts `v` under `k`, replacing any earlier value.
    pub fn insert(&mut self, k: String, v: V)
        requires
            old(self).wf(),
        ensures
            final(self).wf(),
            final(self)@ == old(self)@.insert(k@, v),
    {
        let ghost km = k@;
        match self.find(k.as_str()) {
            Some(i) => {
                self.vals.set(i, v);
                self.m = Ghost(self.m@.insert(km, v));
                assert forall|k2: Seq<char>| #[trigger] self.m@.contains_key(k2) implies exists|j: int|
                    0 <= j < self.keys@.len() && #[trigger] self.keys@[j]@ == k2 by {
                    if k2 == km {
                        assert(self.keys@[i as int]@ == k2);
                    } else {
                        assert(old(self).m@.contains_key(k2));
                        let j = choose|j: int|
                            0 <= j < old(self).keys@.len() && #[trigger] old(self).keys@[j]@ == k2;
                        assert(self.keys@[j]@ == k2);
                    }
                }
            },
            None => {
                let ghost n = self.keys@.len();
                self.keys.push(k);
                self.vals.push(v);
                self.m = Ghost(self.m@.insert(km, v));
                assert(self.keys@[n as int]@ == km);
                assert forall|k2: Seq<char>| #[trigger] self.m@.contains_key(k2) implies exists|j: int|
                    0 <= j < self.keys@.len() && #[trigger] self.keys@[j]@ == k2 by {
                    if k2 == km {
                        assert(self.keys@[n as int]@ == k2);
                    } else {
                        assert(old(self).m@.contains_key(k2));
                        let j = choose|j: int|
                            0 <= j < old(self).keys@.len() && #[trigger] old(self).keys@[j]@ == k2;
                        assert(self.keys@[j]@ == k2);
                    }
                }
            },
        }
    }

    /// Takes out the value under `k`, if any.
    pub fn remove(&mut self, k: &str) -> (r: Option<V>)
        requires
            old(self).wf(),
        ensures
            final(self).wf(),
            final(self)@ == old(self)@.remove(k@),
            r.is_none() <==> !old(self)@.contains_key(k@),
            r matches Some(v) ==> v == old(self)@[k@],
    {
        match self.find(k) {
            Some(i) => {
                let ghost km = k@;
                let ghost ok = self.keys@;
                let _ = self.keys.remove(i);
                let v = self.vals.remove(i);
                self.m = Ghost(self.m@.remove(km));
                assert forall|a: int, b: int|
                    0 <= a < b < self.keys@.len() implies #[trigger] self.keys@[a]@
                    != #[trigger] self.keys@[b]@ by {
                    let a0 = if a < i { a } else { a + 1 };
                    let b0 = if b < i { b } else { b + 1 };
                    assert(ok[a0]@ != ok[b0]@);
                }
                assert forall|j: int| 0 <= j < self.keys@.len() implies {
                    &&& self.m@.contains_key(#[trigger] self.keys@[j]@)
                    &&& self.m@[self.keys@[j]@] == self.vals@[j]
                } by {
                    let j0 = if j < i { j } else { j + 1 };
                    assert(ok[j0]@ != ok[i as int]@);
                    assert(old(self).m@.contains_key(ok[j0]@));
                }
                assert forall|k2: Seq<char>| #[trigger] self.m@.contains_key(k2) implies exists|j: int|
                    0 <= j < self.keys@.len() && #[trigger] self.keys@[j]@ == k2 by {
                    assert(old(self).m@.contains_key(k2));
                    let j0 = choose|j: int| 0 <= j < ok.len() && #[trigger] ok[j]@ == k2;
                    assert(j0 != i);
                    let j = if j0 < i { j0 } else { j0 - 1 };
                    assert(self.keys@[j]@ == k2);
                }
                Some(v)
            },
            None => {
                assert(self.m@.remove(k@) =~= self.m@);
                None
            },
        }
    }
}

} // verus!
