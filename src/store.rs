use vstd::prelude::*;

verus! {

/// The key-value mapping behind GET and SET: a list of entries whose keys
/// are pairwise distinct.
pub struct Store {
    entries: Vec<(String, String)>,
}

/// A store is seen as the map from each entry's key to its value.
impl View for Store {
    type V = Map<Seq<char>, Seq<char>>;

    closed spec fn view(&self) -> Map<Seq<char>, Seq<char>> {
        Map::new(
            |k: Seq<char>| exists|i: int| 0 <= i < self.entries@.len() && #[trigger] self.entries@[i].0@ == k,
            |k: Seq<char>| self.entries@[self.index_of(k)].1@,
        )
    }
}

impl Store {
    /// Position of the entry holding key `k`.
    closed spec fn index_of(&self, k: Seq<char>) -> int {
        choose|i: int| 0 <= i < self.entries@.len() && #[trigger] self.entries@[i].0@ == k
    }

    /// No two entries share a key.
    pub closed spec fn wf(&self) -> bool {
        forall|i: int, j: int|
            0 <= i < self.entries@.len() && 0 <= j < self.entries@.len() && i != j
                ==> #[trigger] self.entries@[i].0@ != #[trigger] self.entries@[j].0@
    }

    /// An empty store.
    pub fn new() -> (r: Store)
        ensures
            r.wf(),
            r@ == Map::<Seq<char>, Seq<char>>::empty(),
    {
        let r = Store { entries: Vec::new() };
        assert(r@ =~= Map::<Seq<char>, Seq<char>>::empty());
        r
    }

    /// Index of the entry for `key`, if there is one.
    fn find(&self, key: &String) -> (r: Option<usize>)
        requires
            self.wf(),
        ensures
            match r {
                Some(i) => i < self.entries@.len() && self.entries@[i as int].0@ == key@,
                None => !self@.contains_key(key@),
            },
    {
        let mut i: usize = 0;
        while i < self.entries.len()
            invariant
                i <= self.entries@.len(),
                forall|j: int| 0 <= j < i ==> #[trigger] self.entries@[j].0@ != key@,
            decreases self.entries@.len() - i,
        {
            if self.entries[i].0 == *key {
                return Some(i);
            }
            i = i + 1;
        }
        None
    }

    /// The value stored under `key`, copied out.
    pub fn get(&self, key: &String) -> (r: Option<String>)
        requires
            self.wf(),
        ensures
            match r {
                Some(v) => self@.contains_key(key@) && v@ == self@[key@],
                None => !self@.contains_key(key@),
            },
    {
        match self.find(key) {
            Some(i) => {
                let ghost k = key@;
                assert(self@.contains_key(k));
                let ghost j = self.index_of(k);
                assert(self.entries@[j].0@ == k);
                assert(j == i as int);
                Some(self.entries[i].1.clone())
            },
            None => None,
        }
    }

    /// Stores `value` under `key`, replacing any earlier value.
    pub fn set(&mut self, key: &String, value: &String)
        requires
            old(self).wf(),
        ensures
            final(self).wf(),
            final(self)@ == old(self)@.insert(key@, value@),
    {
        let ghost pre = self@;
        let ghost post = pre.insert(key@, value@);
        let k = key.clone();
        let v = value.clone();
        match self.find(key) {
            Some(i) => {
                self.entries.set(i, (k, v));
                assert(self.entries@[i as int].0@ == key@);
                assert forall|x: Seq<char>| #[trigger] self@.contains_key(x) == post.contains_key(x) by {
                    if pre.contains_key(x) && x != key@ {
                        let j = old(self).index_of(x);
                        assert(old(self).entries@[j].0@ == x);
                        assert(j != i as int);
                        assert(self.entries@[j].0@ == x);
                    }
                    if self@.contains_key(x) && x != key@ {
                        let j = self.index_of(x);
                        assert(old(self).entries@[j].0@ == x);
                    }
                }
                assert forall|x: Seq<char>| #[trigger] self@.contains_key(x) implies self@[x] == post[x] by {
                    let j = self.index_of(x);
                    assert(self.entries@[j].0@ == x);
                    if x == key@ {
                        assert(j == i as int);
                    } else {
                        let oj = old(self).index_of(x);
                        assert(old(self).entries@[j].0@ == x);
                        assert(old(self).entries@[oj].0@ == x);
                    }
                }
            },
            None => {
                self.entries.push((k, v));
                let ghost n = old(self).entries@.len() as int;
                assert(self.entries@[n].0@ == key@);
                assert forall|x: Seq<char>| #[trigger] self@.contains_key(x) == post.contains_key(x) by {
                    if pre.contains_key(x) {
                        let j = old(self).index_of(x);
                        assert(self.entries@[j].0@ == x);
                    }
                    if self@.contains_key(x) && x != key@ {
                        let j = self.index_of(x);
                        assert(old(self).entries@[j].0@ == x);
                    }
                }
                assert forall|x: Seq<char>| #[trigger] self@.contains_key(x) implies self@[x] == post[x] by {
                    let j = self.index_of(x);
                    assert(self.entries@[j].0@ == x);
                    if x == key@ {
                        assert(j == n);
                    } else {
                        let oj = old(self).index_of(x);
                        assert(old(self).entries@[j].0@ == x);
                        assert(old(self).entries@[oj].0@ == x);
                    }
                }
            },
        }
        assert(self@ =~= post);
    }
}

} // verus!
