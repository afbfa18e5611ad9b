//! The schema of one vault: which keys it holds, and the kind of each entry.

use crate::fields::{has_key, lemma_map_of_at, lemma_map_of_empty, lemma_map_of_insert_at, lemma_map_of_update, map_of, position_of};
use crate::order::{find_slot, lemma_sorted_distinct, lemma_sorted_insert, sorted_keys, text_lt};
use vstd::prelude::*;
use vstd::string::StringExecFns;

verus! {

/// The line that describes one entry: its key, a colon and a space, its kind.
pub open spec fn info_line(key: Seq<char>, value: Seq<char>) -> Seq<char> {
    key + ": "@ + value
}

/// The keys of one vault, each with the name of its entry's kind. The keys
/// are kept in increasing order.
#[derive(Debug)]
pub struct Schema {
    data: Vec<(String, String)>,
}

impl View for Schema {
    type V = Map<Seq<char>, Seq<char>>;

    closed spec fn view(&self) -> Map<Seq<char>, Seq<char>> {
        map_of(self.pairs())
    }
}

impl Default for Schema {
    /// The schema of a vault without entries.
    fn default() -> (r: Schema)
        ensures
            r.wf(),
            r@ == Map::<Seq<char>, Seq<char>>::empty(),
    {
        Schema::new()
    }
}

impl Schema {
    /// The stored pairs, in the order in which `keys` and `all_info` give them.
    pub closed spec fn pairs(&self) -> Seq<(Seq<char>, Seq<char>)> {
        Seq::new(self.data@.len(), |i: int| (self.data@[i].0@, self.data@[i].1@))
    }

    /// The keys are stored in strictly increasing order.
    pub closed spec fn wf(&self) -> bool {
        sorted_keys(self.pairs())
    }

    /// The stored pairs are the pairs of the map, by increasing key.
    pub proof fn lemma_pairs(&self)
        requires
            self.wf(),
        ensures
            sorted_keys(self.pairs()),
            self@ == map_of(self.pairs()),
            forall|i: int|
                0 <= i < self.pairs().len() ==> self@.contains_key((#[trigger] self.pairs()[i]).0)
                    && self@[self.pairs()[i].0] == self.pairs()[i].1,
            forall|k: Seq<char>| self@.contains_key(k) ==> has_key(self.pairs(), k),
    {
        lemma_sorted_distinct(self.pairs());
        assert forall|i: int| 0 <= i < self.pairs().len() implies self@.contains_key(
            (#[trigger] self.pairs()[i]).0,
        ) && self@[self.pairs()[i].0] == self.pairs()[i].1 by {
            lemma_map_of_at(self.pairs(), i);
        }
    }

    pub fn new() -> (r: Schema)
        ensures
            r.wf(),
            r@ == Map::<Seq<char>, Seq<char>>::empty(),
    {
        let r = Schema { data: Vec::new() };
        proof {
            lemma_map_of_empty(r.pairs());
        }
        r
    }

    /// Records `value` under `key`, in place of what was recorded there.
    pub fn insert(&mut self, key: String, value: String)
        requires
            old(self).wf(),
        ensures
            final(self).wf(),
            final(self)@ == old(self)@.insert(key@, value@),
    {
        let ghost before = self.pairs();
        proof {
            lemma_sorted_distinct(before);
        }
        let (i, found): (usize, bool) = find_slot(&self.data, &key);
        assert(forall|j: int| 0 <= j < before.len() ==> (#[trigger] before[j]).0 == self.data@[j].0@);
        if found {
            proof {
                lemma_map_of_update(before, i as int, value@);
            }
            self.data.set(i, (key, value));
            assert(self.pairs() =~= before.update(i as int, (before[i as int].0, value@)));
            assert forall|a: int, b: int| 0 <= a < b < self.pairs().len() implies text_lt(
                (#[trigger] self.pairs()[a]).0,
                (#[trigger] self.pairs()[b]).0,
            ) by {
                assert(self.pairs()[a].0 == before[a].0);
                assert(self.pairs()[b].0 == before[b].0);
            }
        } else {
            proof {
                lemma_sorted_insert(before, i as int, key@, value@);
                lemma_map_of_insert_at(before, i as int, key@, value@);
            }
            self.data.insert(i, (key, value));
            assert(self.pairs() =~= before.insert(i as int, (key@, value@)));
        }
    }

    /// The kind recorded under `key`.
    pub fn get(&self, key: &str) -> (r: Option<&String>)
        requires
            self.wf(),
        ensures
            match r {
                Some(v) => self@.contains_key(key@) && v@ == self@[key@],
                None => !self@.contains_key(key@),
            },
    {
        let owned = key.to_owned();
        match self.find(&owned) {
            Some(i) => {
                proof {
                    lemma_sorted_distinct(self.pairs());
                    lemma_map_of_at(self.pairs(), i as int);
                }
                Some(&self.data[i].1)
            },
            None => None,
        }
    }

    fn find(&self, key: &String) -> (r: Option<usize>)
        ensures
            match r {
                Some(i) => i < self.pairs().len() && self.pairs()[i as int].0 == key@,
                None => !has_key(self.pairs(), key@),
            },
    {
        let mut i: usize = 0;
        while i < self.data.len()
            invariant
                i <= self.data@.len(),
                forall|j: int| 0 <= j < i ==> (#[trigger] self.pairs()[j]).0 != key@,
            decreases self.data@.len() - i,
        {
            if self.data[i].0 == *key {
                return Some(i);
            }
            i += 1;
        }
        None
    }

    pub fn contains_key(&self, key: &String) -> (r: bool)
        ensures
            r == self@.contains_key(key@),
    {
        self.find(key).is_some()
    }

    pub fn is_empty(&self) -> (r: bool)
        ensures
            r == (self@ == Map::<Seq<char>, Seq<char>>::empty()),
    {
        proof {
            lemma_map_of_empty(self.pairs());
        }
        self.data.len() == 0
    }

    /// An independent copy.
    pub fn duplicate(&self) -> (r: Schema)
        ensures
            r@ == self@,
            r.pairs() == self.pairs(),
            r.wf() == self.wf(),
    {
        let mut data: Vec<(String, String)> = Vec::new();
        let mut i: usize = 0;
        while i < self.data.len()
            invariant
                i <= self.data@.len(),
                data@.len() == i,
                forall|j: int|
                    0 <= j < i ==> (#[trigger] data@[j]).0@ == self.data@[j].0@ && data@[j].1@
                        == self.data@[j].1@,
            decreases self.data@.len() - i,
        {
            let k = self.data[i].0.clone();
            let v = self.data[i].1.clone();
            data.push((k, v));
            i += 1;
        }
        let r = Schema { data };
        assert(r.pairs() =~= self.pairs());
        r
    }

    /// The keys, in increasing order.
    pub fn keys(self) -> (r: Vec<String>)
        requires
            self.wf(),
        ensures
            r@.len() == self.pairs().len(),
            forall|i: int| 0 <= i < r@.len() ==> (#[trigger] r@[i])@ == self.pairs()[i].0,
            forall|i: int, j: int| 0 <= i < j < r@.len() ==> text_lt(r@[i]@, r@[j]@),
            forall|i: int| 0 <= i < r@.len() ==> self@.contains_key((#[trigger] r@[i])@),
            forall|k: Seq<char>|
                self@.contains_key(k) ==> exists|i: int| 0 <= i < r@.len() && (#[trigger] r@[i])@ == k,
    {
        let mut out: Vec<String> = Vec::new();
        let mut i: usize = 0;
        while i < self.data.len()
            invariant
                i <= self.data@.len(),
                out@.len() == i,
                forall|j: int| 0 <= j < i ==> (#[trigger] out@[j])@ == self.data@[j].0@,
            decreases self.data@.len() - i,
        {
            out.push(self.data[i].0.clone());
            i += 1;
        }
        proof {
            self.lemma_pairs();
            assert forall|a: int, b: int| 0 <= a < b < out@.len() implies text_lt(
                out@[a]@,
                out@[b]@,
            ) by {
                assert(out@[a]@ == self.pairs()[a].0);
                assert(out@[b]@ == self.pairs()[b].0);
            }
            assert forall|i: int| 0 <= i < out@.len() implies self@.contains_key(
                (#[trigger] out@[i])@,
            ) by {
                assert(out@[i]@ == self.pairs()[i].0);
            }
            assert forall|k: Seq<char>| self@.contains_key(k) implies exists|i: int|
                0 <= i < out@.len() && (#[trigger] out@[i])@ == k by {
                let i = position_of(self.pairs(), k);
                assert(out@[i]@ == k);
            }
        }
        out
    }

    /// One line for each entry, by increasing key.
    pub fn all_info(self) -> (r: Vec<String>)
        requires
            self.wf(),
        ensures
            r@.len() == self.pairs().len(),
            forall|i: int|
                0 <= i < r@.len() ==> (#[trigger] r@[i])@ == info_line(
                    self.pairs()[i].0,
                    self.pairs()[i].1,
                ),
            sorted_keys(self.pairs()),
            self@ == map_of(self.pairs()),
    {
        proof {
            self.lemma_pairs();
        }
        let mut out: Vec<String> = Vec::new();
        let mut i: usize = 0;
        while i < self.data.len()
            invariant
                i <= self.data@.len(),
                out@.len() == i,
                forall|j: int|
                    0 <= j < i ==> (#[trigger] out@[j])@ == info_line(
                        self.data@[j].0@,
                        self.data@[j].1@,
                    ),
            decreases self.data@.len() - i,
        {
            let line = self.data[i].0.clone().concat(": ").concat(self.data[i].1.as_str());
            out.push(line);
            i += 1;
        }
        out
    }
}

} // verus!
