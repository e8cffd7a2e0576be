use vstd::prelude::*;

verus! {

/// Abstract content of a list of entries: each entry sets its key, later
/// entries overriding earlier ones.
pub open spec fn map_of(s: Seq<(String, String)>) -> Map<Seq<char>, Seq<char>>
    decreases s.len(),
{
    if s.len() == 0 {
        Map::empty()
    } else {
        map_of(s.drop_last()).insert(s.last().0@, s.last().1@)
    }
}

/// No key occurs twice in the list.
pub open spec fn keys_unique(s: Seq<(String, String)>) -> bool {
    forall|i: int, j: int|
        0 <= i < j < s.len() ==> (#[trigger] s[i]).0@ != (#[trigger] s[j]).0@
}

proof fn lemma_map_of_keys(s: Seq<(String, String)>, k: Seq<char>)
    ensures
        map_of(s).contains_key(k) <==> exists|i: int| 0 <= i < s.len() && (#[trigger] s[i]).0@ == k,
    decreases s.len(),
{
    if s.len() > 0 {
        let t = s.drop_last();
        lemma_map_of_keys(t, k);
        if map_of(t).contains_key(k) {
            let i = choose|i: int| 0 <= i < t.len() && (#[trigger] t[i]).0@ == k;
            assert(s[i] == t[i]);
        }
        if exists|i: int| 0 <= i < s.len() && (#[trigger] s[i]).0@ == k {
            let i = choose|i: int| 0 <= i < s.len() && (#[trigger] s[i]).0@ == k;
            if i < s.len() - 1 {
                assert(t[i] == s[i]);
            }
        }
    }
}

proof fn lemma_map_of_value(s: Seq<(String, String)>, i: int)
    requires
        keys_unique(s),
        0 <= i < s.len(),
    ensures
        map_of(s).contains_key(s[i].0@),
        map_of(s)[s[i].0@] == s[i].1@,
    decreases s.len(),
{
    let t = s.drop_last();
    if i < s.len() - 1 {
        assert(t[i] == s[i]);
        assert(keys_unique(t)) by {
            assert forall|a: int, b: int| 0 <= a < b < t.len() implies (#[trigger] t[a]).0@
                != (#[trigger] t[b]).0@ by {
                assert(t[a] == s[a] && t[b] == s[b]);
            }
        }
        lemma_map_of_value(t, i);
        assert(s[i] != s[s.len() - 1]);
    }
}

/// Two lists with unique keys that hold the same keys with the same values
/// stand for the same map.
proof fn lemma_map_of_equal(s: Seq<(String, String)>, m: Map<Seq<char>, Seq<char>>)
    requires
        keys_unique(s),
        forall|i: int| 0 <= i < s.len() ==> m.contains_key((#[trigger] s[i]).0@) && m[s[i].0@] == s[i].1@,
        forall|k: Seq<char>| #[trigger] m.contains_key(k) ==> exists|i: int| 0 <= i < s.len() && (#[trigger] s[i]).0@ == k,
    ensures
        map_of(s) == m,
{
    assert forall|k: Seq<char>| #[trigger] map_of(s).contains_key(k) <==> m.contains_key(k) by {
        lemma_map_of_keys(s, k);
    }
    assert forall|k: Seq<char>| #[trigger] map_of(s).contains_key(k) implies map_of(s)[k] == m[k] by {
        lemma_map_of_keys(s, k);
        let i = choose|i: int| 0 <= i < s.len() && (#[trigger] s[i]).0@ == k;
        lemma_map_of_value(s, i);
    }
    assert(map_of(s) =~= m);
}

/// A store of values by key, at most one value per key.
pub struct Cache {
    entries: Vec<(String, String)>,
}

impl View for Cache {
    type V = Map<Seq<char>, Seq<char>>;

    closed spec fn view(&self) -> Map<Seq<char>, Seq<char>> {
        map_of(self.entries@)
    }
}

impl Cache {
    /// The store keeps no key twice.
    pub closed spec fn wf(&self) -> bool {
        keys_unique(self.entries@)
    }

    fn find(&self, key: &String) -> (r: Option<usize>)
        requires
            self.wf(),
        ensures
            r matches Some(i) ==> i < self.entries@.len() && self.entries@[i as int].0@ == key@,
            r is None ==> forall|i: int| 0 <= i < self.entries@.len() ==> (#[trigger] self.entries@[i]).0@ != key@,
    {
        let mut i: usize = 0;
        while i < self.entries.len()
            invariant
                i <= self.entries@.len(),
                forall|j: int| 0 <= j < i ==> (#[trigger] self.entries@[j]).0@ != key@,
            decreases self.entries@.len() - i,
        {
            if self.entries[i].0 == *key {
                return Some(i);
            }
            i = i + 1;
        }
        None
    }

    /// An empty store.
    pub fn new() -> (r: Cache)
        ensures
            r.wf(),
            r@ == Map::<Seq<char>, Seq<char>>::empty(),
    {
        Cache { entries: Vec::new() }
    }

    /// Stores `value` under `key`, replacing what was there.
    pub fn set(&mut self, key: String, value: String)
        requires
            old(self).wf(),
        ensures
            final(self).wf(),
            final(self)@ == old(self)@.insert(key@, value@),
    {
        let ghost k = key@;
        let ghost v = value@;
        let ghost m = self@.insert(k, v);
        let ghost s0 = self.entries@;
        match self.find(&key) {
            Some(i) => {
                self.entries.set(i, (key, value));
                let ghost s = self.entries@;
                assert(keys_unique(s)) by {
                    assert forall|a: int, b: int| 0 <= a < b < s.len() implies (#[trigger] s[a]).0@
                        != (#[trigger] s[b]).0@ by {
                        assert(s0[a] != s0[b] || a == b);
                        if a != i && b != i {
                            assert(s[a] == s0[a] && s[b] == s0[b]);
                        }
                    }
                }
                proof {
                    assert forall|j: int| 0 <= j < s.len() implies m.contains_key((#[trigger] s[j]).0@) && m[s[j].0@] == s[j].1@ by {
                        if j != i {
                            assert(s[j] == s0[j]);
                            lemma_map_of_value(s0, j);
                        }
                    }
                    assert forall|x: Seq<char>| #[trigger] m.contains_key(x) implies exists|j: int| 0 <= j < s.len() && (#[trigger] s[j]).0@ == x by {
                        if x != k {
                            lemma_map_of_keys(s0, x);
                            let j = choose|j: int| 0 <= j < s0.len() && (#[trigger] s0[j]).0@ == x;
                            assert(s[j] == s0[j]);
                        } else {
                            assert(s[i as int].0@ == x);
                        }
                    }
                    lemma_map_of_equal(s, m);
                }
            },
            None => {
                self.entries.push((key, value));
                let ghost s = self.entries@;
                assert(s.drop_last() =~= s0);
                assert(keys_unique(s)) by {
                    assert forall|a: int, b: int| 0 <= a < b < s.len() implies (#[trigger] s[a]).0@
                        != (#[trigger] s[b]).0@ by {
                        assert(s[a] == s0[a]);
                        if b < s0.len() {
                            assert(s[b] == s0[b]);
                        }
                    }
                }
            },
        }
    }

    /// The value stored under `key`, if any; the store is unchanged.
    pub fn get(&self, key: &String) -> (r: Option<String>)
        requires
            self.wf(),
        ensures
            r is None <==> !self@.contains_key(key@),
            r matches Some(v) ==> self@[key@] == v@,
    {
        proof {
            lemma_map_of_keys(self.entries@, key@);
        }
        match self.find(key) {
            Some(i) => {
                proof {
                    lemma_map_of_value(self.entries@, i as int);
                }
                Some(self.entries[i].1.clone())
            },
            None => None,
        }
    }

    /// Removes whatever is stored under `key`.
    pub fn remove(&mut self, key: &String)
        requires
            old(self).wf(),
        ensures
            final(self).wf(),
            final(self)@ == old(self)@.remove(key@),
    {
        let ghost k = key@;
        let ghost m = self@.remove(k);
        let ghost s0 = self.entries@;
        match self.find(key) {
            Some(i) => {
                self.entries.remove(i);
                let ghost s = self.entries@;
                assert(s =~= s0.remove(i as int));
                assert(forall|j: int| 0 <= j < s.len() ==> #[trigger] s[j] == s0[if j < i { j } else { j + 1 }]);
                assert(keys_unique(s)) by {
                    assert forall|a: int, b: int| 0 <= a < b < s.len() implies (#[trigger] s[a]).0@
                        != (#[trigger] s[b]).0@ by {
                        let a0 = if a < i { a } else { a + 1 };
                        let b0 = if b < i { b } else { b + 1 };
                        assert(s[a] == s0[a0] && s[b] == s0[b0]);
                        assert(s0[a0] != s0[b0]);
                    }
                }
                proof {
                    assert forall|j: int| 0 <= j < s.len() implies m.contains_key((#[trigger] s[j]).0@) && m[s[j].0@] == s[j].1@ by {
                        let j0 = if j < i { j } else { j + 1 };
                        assert(s[j] == s0[j0]);
                        assert(s0[j0] != s0[i as int]);
                        lemma_map_of_value(s0, j0);
                    }
                    assert forall|x: Seq<char>| #[trigger] m.contains_key(x) implies exists|j: int| 0 <= j < s.len() && (#[trigger] s[j]).0@ == x by {
                        lemma_map_of_keys(s0, x);
                        let j0 = choose|j: int| 0 <= j < s0.len() && (#[trigger] s0[j]).0@ == x;
                        let j = if j0 < i { j0 } else { j0 - 1 };
                        assert(s[j] == s0[j0]);
                    }
                    lemma_map_of_equal(s, m);
                }
            },
            None => {
                proof {
                    lemma_map_of_keys(s0, k);
                    assert(self@ =~= m);
                }
            },
        }
    }
}

} // verus!
