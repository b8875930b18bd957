use vstd::prelude::*;

use crate::types::{DataKey, Value};

verus! {

/// A key-value store: at most one value for each key.
pub struct Storage {
    entries: Vec<(DataKey, Value)>,
    contents: Ghost<Map<DataKey, Value>>,
}

impl View for Storage {
    type V = Map<DataKey, Value>;

    closed spec fn view(&self) -> Map<DataKey, Value> {
        self.contents@
    }
}

impl Storage {
    /// The entries are the contents, each key once.
    pub closed spec fn wf(&self) -> bool {
        &&& forall|i: int, j: int|
            0 <= i < j < self.entries@.len() ==> #[trigger] self.entries@[i].0
                != #[trigger] self.entries@[j].0
        &&& forall|i: int|
            0 <= i < self.entries@.len() ==> {
                &&& self.contents@.contains_key(#[trigger] self.entries@[i].0)
                &&& self.contents@[self.entries@[i].0] == self.entries@[i].1
            }
        &&& forall|k: DataKey| #[trigger]
            self.contents@.contains_key(k) ==> exists|i: int|
                0 <= i < self.entries@.len() && #[trigger] self.entries@[i].0 == k
    }

    /// An empty store.
    pub fn new() -> (r: Storage)
        ensures
            r.wf(),
            r@ == Map::<DataKey, Value>::empty(),
    {
        Storage { entries: Vec::new(), contents: Ghost(Map::empty()) }
    }

    /// The position of `key` among the entries, if it is there.
    fn find(&self, key: &DataKey) -> (r: Option<usize>)
        requires
            self.wf(),
        ensures
            match r {
                Some(i) => i < self.entries@.len() && self.entries@[i as int].0 == *key,
                None => !self@.contains_key(*key),
            },
    {
        let mut i: usize = 0;
        while i < self.entries.len()
            invariant
                self.wf(),
                0 <= i <= self.entries@.len(),
                forall|j: int| 0 <= j < i ==> self.entries@[j].0 != *key,
            decreases self.entries@.len() - i,
        {
            if self.entries[i].0.same(key) {
                return Some(i);
            }
            i = i + 1;
        }
        None
    }

    /// Whether a value is stored under `key`.
    pub fn has(&self, key: &DataKey) -> (r: bool)
        requires
            self.wf(),
        ensures
            r == self@.contains_key(*key),
    {
        self.find(key).is_some()
    }

    /// The value stored under `key`, if any.
    pub fn get(&self, key: &DataKey) -> (r: Option<Value>)
        requires
            self.wf(),
        ensures
            r == if self@.contains_key(*key) {
                Some(self@[*key])
            } else {
                None::<Value>
            },
    {
        match self.find(key) {
            Some(i) => Some(self.entries[i].1),
            None => None,
        }
    }

    /// Stores `value` under `key`, replacing what was there.
    pub fn set(&mut self, key: DataKey, value: Value)
        requires
            old(self).wf(),
        ensures
            final(self).wf(),
            final(self)@ == old(self)@.insert(key, value),
    {
        let ghost contents = self.contents@.insert(key, value);
        let ghost at: int;
        match self.find(&key) {
            Some(i) => {
                self.entries.set(i, (key, value));
                proof {
                    at = i as int;
                }
            },
            None => {
                self.entries.push((key, value));
                proof {
                    at = self.entries@.len() - 1;
                }
            },
        }
        self.contents = Ghost(contents);
        assert(self.entries@[at].0 == key);
        assert forall|k: DataKey| #[trigger] self.contents@.contains_key(k) implies exists|i: int|
            0 <= i < self.entries@.len() && #[trigger] self.entries@[i].0 == k by {
            if k != key {
                assert(old(self)@.contains_key(k));
                let i = choose|i: int|
                    0 <= i < old(self).entries@.len() && #[trigger] old(self).entries@[i].0 == k;
                assert(self.entries@[i].0 == k);
            }
        }
    }

    /// Deletes what is stored under `key`, if anything.
    pub fn remove(&mut self, key: &DataKey)
        requires
            old(self).wf(),
        ensures
            final(self).wf(),
            final(self)@ == old(self)@.remove(*key),
    {
        match self.find(key) {
            Some(i) => {
                self.entries.remove(i);
                self.contents = Ghost(self.contents@.remove(*key));
                assert forall|k: DataKey| #[trigger] self.contents@.contains_key(k) implies exists|j: int|
                    0 <= j < self.entries@.len() && #[trigger] self.entries@[j].0 == k by {
                    let j = choose|j: int| 0 <= j < old(self).entries@.len() && #[trigger] old(self).entries@[j].0 == k;
                    if j < i {
                        assert(self.entries@[j].0 == k);
                    } else {
                        assert(self.entries@[j - 1].0 == k);
                    }
                }
            },
            None => {
                assert(self.contents@.remove(*key) =~= self.contents@);
            },
        }
    }
}

} // verus!
