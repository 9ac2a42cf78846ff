use vstd::prelude::*;

verus! {

/// A key/value pair as plain character sequences.
pub type PairView = (Seq<char>, Seq<char>);

/// The plain view of a list of string pairs.
pub open spec fn pairs_view(v: Seq<(String, String)>) -> Seq<PairView> {
    v.map_values(|p: (String, String)| (p.0@, p.1@))
}

/// No key occurs twice.
pub open spec fn keys_unique(pairs: Seq<PairView>) -> bool {
    forall|i: int, j: int|
        0 <= i < pairs.len() && 0 <= j < pairs.len() && i != j ==> pairs[i].0 != pairs[j].0
}

/// Some pair has key `k`.
pub open spec fn has_key(pairs: Seq<PairView>, k: Seq<char>) -> bool {
    exists|i: int| 0 <= i < pairs.len() && pairs[i].0 == k
}

/// The mapping that a list of pairs with unique keys denotes.
pub open spec fn pairs_to_map(pairs: Seq<PairView>) -> Map<Seq<char>, Seq<char>> {
    Map::new(
        |k: Seq<char>| has_key(pairs, k),
        |k: Seq<char>| pairs[choose|i: int| 0 <= i < pairs.len() && pairs[i].0 == k].1,
    )
}

/// With unique keys, the pair at `i` is what the mapping holds for its key.
proof fn lemma_pairs_to_map_at(pairs: Seq<PairView>, i: int)
    requires
        keys_unique(pairs),
        0 <= i < pairs.len(),
    ensures
        pairs_to_map(pairs).contains_key(pairs[i].0),
        pairs_to_map(pairs)[pairs[i].0] == pairs[i].1,
{
    let k = pairs[i].0;
    assert(has_key(pairs, k));
    let j = choose|j: int| 0 <= j < pairs.len() && pairs[j].0 == k;
    assert(j == i);
}

/// A list with unique keys denotes `m` when each of its pairs is found in `m`
/// and each key of `m` occurs in it.
proof fn lemma_same_map(pairs: Seq<PairView>, m: Map<Seq<char>, Seq<char>>)
    requires
        keys_unique(pairs),
        forall|i: int|
            0 <= i < pairs.len() ==> #[trigger] m.contains_key(pairs[i].0) && m[pairs[i].0]
                == pairs[i].1,
        forall|k: Seq<char>| #[trigger] m.contains_key(k) ==> has_key(pairs, k),
    ensures
        pairs_to_map(pairs) == m,
{
    assert forall|k: Seq<char>| #[trigger] pairs_to_map(pairs).contains_key(k) <==> m.contains_key(
        k,
    ) by {
        if has_key(pairs, k) {
            let i = choose|i: int| 0 <= i < pairs.len() && pairs[i].0 == k;
            assert(m.contains_key(pairs[i].0));
        }
    }
    assert forall|k: Seq<char>| m.contains_key(k) implies pairs_to_map(pairs)[k] == m[k] by {
        let i = choose|i: int| 0 <= i < pairs.len() && pairs[i].0 == k;
        lemma_pairs_to_map_at(pairs, i);
    }
    assert(pairs_to_map(pairs) =~= m);
}

/// With unique keys, the mapping has one key for each pair.
proof fn lemma_pairs_to_map_len(pairs: Seq<PairView>)
    requires
        keys_unique(pairs),
    ensures
        pairs_to_map(pairs).dom().finite(),
        pairs_to_map(pairs).dom().len() == pairs.len(),
    decreases pairs.len(),
{
    if pairs.len() == 0 {
        assert(pairs_to_map(pairs) =~= Map::<Seq<char>, Seq<char>>::empty());
    } else {
        let prefix = pairs.drop_last();
        let last = pairs.last();
        assert(keys_unique(prefix));
        lemma_pairs_to_map_len(prefix);
        let m = pairs_to_map(prefix).insert(last.0, last.1);
        assert forall|i: int| 0 <= i < pairs.len() implies #[trigger] m.contains_key(pairs[i].0)
            && m[pairs[i].0] == pairs[i].1 by {
            if i < pairs.len() - 1 {
                assert(prefix[i] == pairs[i]);
                lemma_pairs_to_map_at(prefix, i);
            }
        }
        assert forall|k: Seq<char>| #[trigger] m.contains_key(k) implies has_key(pairs, k) by {
            if k != last.0 {
                let i = choose|i: int| 0 <= i < prefix.len() && prefix[i].0 == k;
                assert(pairs[i].0 == k);
            } else {
                assert(pairs[pairs.len() - 1].0 == k);
            }
        }
        lemma_same_map(pairs, m);
        assert(!pairs_to_map(prefix).contains_key(last.0));
    }
}

/// A mapping from string keys to string values, such as a request's headers.
/// Entries are kept in the order they were first inserted; no key occurs twice.
#[derive(Debug)]
pub struct KeyValueMap {
    entries: Vec<(String, String)>,
}

impl Clone for KeyValueMap {
    /// The same as [`KeyValueMap::snapshot`].
    fn clone(&self) -> (r: KeyValueMap)
        ensures
            r.pairs() == self.pairs(),
    {
        self.snapshot()
    }
}

impl View for KeyValueMap {
    type V = Map<Seq<char>, Seq<char>>;

    open spec fn view(&self) -> Map<Seq<char>, Seq<char>> {
        pairs_to_map(self.pairs())
    }
}

impl KeyValueMap {
    /// The entries in order, as plain values.
    pub closed spec fn pairs(&self) -> Seq<PairView> {
        pairs_view(self.entries@)
    }

    #[verifier::type_invariant]
    spec fn keys_are_unique(&self) -> bool {
        keys_unique(self.pairs())
    }

    /// An empty map.
    pub fn new() -> (r: KeyValueMap)
        ensures
            r.pairs() == Seq::<PairView>::empty(),
            r@ == Map::<Seq<char>, Seq<char>>::empty(),
    {
        let r = KeyValueMap { entries: Vec::new() };
        assert(r.pairs() =~= Seq::<PairView>::empty());
        assert(r@ =~= Map::<Seq<char>, Seq<char>>::empty());
        r
    }

    /// The number of entries.
    pub fn len(&self) -> (r: usize)
        ensures
            r == self.pairs().len(),
            r == self@.len(),
    {
        proof {
            use_type_invariant(self);
            lemma_pairs_to_map_len(self.pairs());
        }
        self.entries.len()
    }

    /// Whether the map has no entries.
    pub fn is_empty(&self) -> (r: bool)
        ensures
            r == (self.pairs().len() == 0),
            r == (self@ == Map::<Seq<char>, Seq<char>>::empty()),
    {
        proof {
            if self.pairs().len() > 0 {
                use_type_invariant(self);
                lemma_pairs_to_map_at(self.pairs(), 0);
            } else {
                assert(self@ =~= Map::<Seq<char>, Seq<char>>::empty());
            }
        }
        self.entries.len() == 0
    }

    /// The entries in order.
    pub fn entries(&self) -> (r: &Vec<(String, String)>)
        ensures
            pairs_view(r@) == self.pairs(),
            keys_unique(self.pairs()),
            self@.dom().finite(),
    {
        proof {
            use_type_invariant(self);
            lemma_pairs_to_map_len(self.pairs());
        }
        &self.entries
    }

    /// Where `key` stands among the entries, if anywhere.
    fn position(&self, key: &String) -> (r: Option<usize>)
        ensures
            r.is_none() <==> !has_key(self.pairs(), key@),
            r matches Some(i) ==> i < self.pairs().len() && self.pairs()[i as int].0 == key@,
    {
        let mut i: usize = 0;
        while i < self.entries.len()
            invariant
                i <= self.entries.len(),
                forall|j: int| 0 <= j < i ==> self.pairs()[j].0 != key@,
            decreases self.entries.len() - i,
        {
            if self.entries[i].0 == *key {
                assert(self.pairs()[i as int].0 == key@);
                return Some(i);
            }
            i = i + 1;
        }
        None
    }

    /// The value stored under `key`.
    pub fn get(&self, key: &str) -> (r: Option<&String>)
        ensures
            r.is_some() <==> self@.contains_key(key@),
            r matches Some(v) ==> v@ == self@[key@],
    {
        proof {
            use_type_invariant(self);
        }
        let k = key.to_owned();
        match self.position(&k) {
            Some(i) => {
                proof {
                    lemma_pairs_to_map_at(self.pairs(), i as int);
                }
                Some(&self.entries[i].1)
            },
            None => None,
        }
    }

    /// Whether `key` is present.
    pub fn contains_key(&self, key: &str) -> (r: bool)
        ensures
            r == self@.contains_key(key@),
    {
        self.get(key).is_some()
    }

    /// Stores `value` under `key`, replacing what was there.
    pub fn insert(&mut self, key: String, value: String)
        ensures
            final(self)@ == old(self)@.insert(key@, value@),
            old(self)@.contains_key(key@) ==> exists|i: int|
                0 <= i < old(self).pairs().len() && old(self).pairs()[i].0 == key@
                    && final(self).pairs() == old(self).pairs().update(i, (key@, value@)),
            !old(self)@.contains_key(key@) ==> final(self).pairs() == old(self).pairs().push(
                (key@, value@),
            ),
    {
        proof {
            use_type_invariant(&*self);
        }
        let ghost old_pairs = self.pairs();
        let ghost m = old(self)@.insert(key@, value@);
        let found = self.position(&key);
        let mut entries = self.take_entries();
        match found {
            Some(i) => {
                let ghost kv = key@;
                let ghost vv = value@;
                entries.set(i, (key, value));
                proof {
                    let new_pairs = pairs_view(entries@);
                    assert(new_pairs =~= old_pairs.update(i as int, (kv, vv)));
                    assert forall|a: int| 0 <= a < new_pairs.len() implies #[trigger] m.contains_key(
                        new_pairs[a].0,
                    ) && m[new_pairs[a].0] == new_pairs[a].1 by {
                        if a != i {
                            lemma_pairs_to_map_at(old_pairs, a);
                        }
                    }
                    assert forall|k: Seq<char>| #[trigger] m.contains_key(k) implies has_key(
                        new_pairs,
                        k,
                    ) by {
                        if k != kv {
                            let a = choose|a: int| 0 <= a < old_pairs.len() && old_pairs[a].0 == k;
                            assert(new_pairs[a].0 == k);
                        } else {
                            assert(new_pairs[i as int].0 == k);
                        }
                    }
                    assert(keys_unique(new_pairs));
                    lemma_same_map(new_pairs, m);
                }
            },
            None => {
                entries.push((key, value));
                proof {
                    let new_pairs = pairs_view(entries@);
                    assert(new_pairs =~= old_pairs.push((key@, value@)));
                    assert(keys_unique(new_pairs));
                    assert forall|a: int| 0 <= a < new_pairs.len() implies #[trigger] m.contains_key(
                        new_pairs[a].0,
                    ) && m[new_pairs[a].0] == new_pairs[a].1 by {
                        if a < old_pairs.len() {
                            lemma_pairs_to_map_at(old_pairs, a);
                        }
                    }
                    assert forall|k: Seq<char>| #[trigger] m.contains_key(k) implies has_key(
                        new_pairs,
                        k,
                    ) by {
                        if k != key@ {
                            let a = choose|a: int| 0 <= a < old_pairs.len() && old_pairs[a].0 == k;
                            assert(new_pairs[a].0 == k);
                        } else {
                            assert(new_pairs[old_pairs.len() as int].0 == k);
                        }
                    }
                    lemma_same_map(new_pairs, m);
                }
            },
        }
        *self = KeyValueMap { entries };
    }

    /// Removes `key` and returns the value it held.
    pub fn remove(&mut self, key: &str) -> (r: Option<String>)
        ensures
            final(self)@ == old(self)@.remove(key@),
            r.is_some() <==> old(self)@.contains_key(key@),
            r matches Some(v) ==> v@ == old(self)@[key@],
            old(self)@.contains_key(key@) ==> exists|i: int|
                0 <= i < old(self).pairs().len() && old(self).pairs()[i].0 == key@
                    && final(self).pairs() == old(self).pairs().remove(i),
            !old(self)@.contains_key(key@) ==> final(self).pairs() == old(self).pairs(),
    {
        proof {
            use_type_invariant(&*self);
        }
        let ghost old_pairs = self.pairs();
        let ghost m = old(self)@.remove(key@);
        let k = key.to_owned();
        let found = self.position(&k);
        match found {
            Some(i) => {
                proof {
                    lemma_pairs_to_map_at(old_pairs, i as int);
                }
                let mut entries = self.take_entries();
                let (_, value) = entries.remove(i);
                proof {
                    let new_pairs = pairs_view(entries@);
                    assert(new_pairs =~= old_pairs.remove(i as int));
                    assert(keys_unique(new_pairs));
                    assert forall|a: int| 0 <= a < new_pairs.len() implies #[trigger] m.contains_key(
                        new_pairs[a].0,
                    ) && m[new_pairs[a].0] == new_pairs[a].1 by {
                        if a < i {
                            lemma_pairs_to_map_at(old_pairs, a);
                        } else {
                            lemma_pairs_to_map_at(old_pairs, a + 1);
                        }
                    }
                    assert forall|kk: Seq<char>| #[trigger] m.contains_key(kk) implies has_key(
                        new_pairs,
                        kk,
                    ) by {
                        let a = choose|a: int| 0 <= a < old_pairs.len() && old_pairs[a].0 == kk;
                        if a < i {
                            assert(new_pairs[a].0 == kk);
                        } else {
                            assert(new_pairs[a - 1].0 == kk);
                        }
                    }
                    lemma_same_map(new_pairs, m);
                }
                *self = KeyValueMap { entries };
                Some(value)
            },
            None => {
                assert(old(self)@ =~= m);
                None
            },
        }
    }

    /// A copy of the entries, in order.
    pub fn to_pairs(&self) -> (r: Vec<(String, String)>)
        ensures
            pairs_view(r@) == self.pairs(),
            keys_unique(self.pairs()),
            self@.dom().finite(),
    {
        proof {
            use_type_invariant(self);
            lemma_pairs_to_map_len(self.pairs());
        }
        let mut copied: Vec<(String, String)> = Vec::new();
        let mut i: usize = 0;
        while i < self.entries.len()
            invariant
                i <= self.entries.len(),
                copied@.len() == i,
                pairs_view(copied@) == self.pairs().subrange(0, i as int),
            decreases self.entries.len() - i,
        {
            let ghost before = copied@;
            let k = self.entries[i].0.clone();
            let v = self.entries[i].1.clone();
            copied.push((k, v));
            assert forall|j: int| 0 <= j < i implies pairs_view(copied@)[j] == pairs_view(before)[j] by {
                assert(copied@[j] == before[j]);
            }
            assert(pairs_view(copied@) =~= self.pairs().subrange(0, i + 1));
            i = i + 1;
        }
        assert(self.pairs().subrange(0, i as int) =~= self.pairs());
        copied
    }

    /// An independent copy holding the same entries in the same order.
    pub fn snapshot(&self) -> (r: KeyValueMap)
        ensures
            r.pairs() == self.pairs(),
            r@ == self@,
            keys_unique(self.pairs()),
            self@.dom().finite(),
    {
        proof {
            use_type_invariant(self);
        }
        proof {
            lemma_pairs_to_map_len(self.pairs());
        }
        KeyValueMap { entries: self.to_pairs() }
    }

    /// Moves the entries out, leaving the map empty.
    fn take_entries(&mut self) -> (r: Vec<(String, String)>)
        ensures
            pairs_view(r@) == old(self).pairs(),
            keys_unique(pairs_view(r@)),
    {
        let mut taken = KeyValueMap::new();
        core::mem::swap(self, &mut taken);
        proof {
            use_type_invariant(&taken);
        }
        taken.entries
    }
}

} // verus!
