//! The local directory of vaults, and the snapshots that refresh it.

use crate::fields::{
    has_key, lemma_map_of_at, lemma_map_of_empty, lemma_map_of_insert_at, lemma_map_of_update,
    map_of, position_of,
};
use crate::order::{find_slot, lemma_sorted_distinct, lemma_sorted_insert, sorted_keys, text_lt};
use crate::schema::Schema;
use crate::store::{Store, StoreView};
use vstd::prelude::*;

verus! {

/// A snapshot of the remote directory: the schema of each vault, by name.
#[derive(Debug)]
pub struct Info {
    data: Vec<(String, Schema)>,
}

impl View for Info {
    type V = Map<Seq<char>, Map<Seq<char>, Seq<char>>>;

    closed spec fn view(&self) -> Map<Seq<char>, Map<Seq<char>, Seq<char>>> {
        map_of(self.pairs())
    }
}

impl Default for Info {
    /// A snapshot without vaults.
    fn default() -> (r: Info)
        ensures
            r.wf(),
            r@ == Map::<Seq<char>, Map<Seq<char>, Seq<char>>>::empty(),
    {
        Info::new()
    }
}

impl Info {
    /// The vaults in stored order: the name and the schema of each.
    pub closed spec fn pairs(&self) -> Seq<(Seq<char>, Map<Seq<char>, Seq<char>>)> {
        Seq::new(self.data@.len(), |i: int| (self.data@[i].0@, self.data@[i].1@))
    }

    /// The vaults are stored by increasing name, and every schema is well
    /// formed.
    pub closed spec fn wf(&self) -> bool {
        &&& sorted_keys(self.pairs())
        &&& forall|i: int| 0 <= i < self.data@.len() ==> (#[trigger] self.data@[i]).1.wf()
    }

    pub fn new() -> (r: Info)
        ensures
            r.wf(),
            r@ == Map::<Seq<char>, Map<Seq<char>, Seq<char>>>::empty(),
    {
        let r = Info { data: Vec::new() };
        proof {
            lemma_map_of_empty(r.pairs());
        }
        r
    }

    fn find(&self, name: &String) -> (r: Option<usize>)
        ensures
            match r {
                Some(i) => i < self.data@.len() && self.pairs()[i as int].0 == name@,
                None => !has_key(self.pairs(), name@),
            },
    {
        let mut i: usize = 0;
        while i < self.data.len()
            invariant
                i <= self.data@.len(),
                forall|j: int| 0 <= j < i ==> (#[trigger] self.pairs()[j]).0 != name@,
            decreases self.data@.len() - i,
        {
            if self.data[i].0 == *name {
                return Some(i);
            }
            i += 1;
        }
        None
    }

    /// The schema of the vault of this name, if the snapshot holds it.
    pub fn get(&self, name: &String) -> (r: Option<&Schema>)
        requires
            self.wf(),
        ensures
            match r {
                Some(s) => self@.contains_key(name@) && s@ == self@[name@] && s.wf(),
                None => !self@.contains_key(name@),
            },
    {
        match self.find(name) {
            Some(i) => {
                proof {
                    lemma_sorted_distinct(self.pairs());
                    lemma_map_of_at(self.pairs(), i as int);
                }
                Some(&self.data[i].1)
            },
            None => None,
        }
    }

    /// Records `schema` for the vault `name`, in place of what was recorded.
    pub fn insert(&mut self, name: String, schema: Schema)
        requires
            old(self).wf(),
            schema.wf(),
        ensures
            final(self).wf(),
            final(self)@ == old(self)@.insert(name@, schema@),
    {
        let ghost before = self.pairs();
        let ghost old_data = self.data@;
        proof {
            lemma_sorted_distinct(before);
        }
        let (i, found): (usize, bool) = find_slot(&self.data, &name);
        assert(forall|j: int| 0 <= j < before.len() ==> (#[trigger] before[j]).0 == old_data[j].0@);
        if found {
            proof {
                lemma_map_of_update(before, i as int, schema@);
            }
            self.data.set(i, (name, schema));
            assert(self.pairs() =~= before.update(i as int, (before[i as int].0, schema@)));
            assert forall|a: int, b: int| 0 <= a < b < self.pairs().len() implies text_lt(
                (#[trigger] self.pairs()[a]).0,
                (#[trigger] self.pairs()[b]).0,
            ) by {
                assert(self.pairs()[a].0 == before[a].0);
                assert(self.pairs()[b].0 == before[b].0);
            }
            assert forall|j: int| 0 <= j < self.data@.len() implies (#[trigger] self.data@[j]).1.wf() by {
                if j != i as int {
                    assert(self.data@[j] == old_data[j]);
                }
            }
        } else {
            proof {
                lemma_sorted_insert(before, i as int, name@, schema@);
                lemma_map_of_insert_at(before, i as int, name@, schema@);
            }
            self.data.insert(i, (name, schema));
            assert(self.pairs() =~= before.insert(i as int, (name@, schema@)));
            assert forall|j: int| 0 <= j < self.data@.len() implies (#[trigger] self.data@[j]).1.wf() by {
                if j < i as int {
                    assert(self.data@[j] == old_data[j]);
                } else if j > i as int {
                    assert(self.data@[j] == old_data[j - 1]);
                }
            }
        }
    }
}

/// What the directory knows of one vault.
#[derive(Debug)]
pub struct Vault {
    pub name: String,
    pub schema: Schema,
    /// Whether the vault is shown unfolded. Only the display reads it.
    pub expanded: bool,
}

pub ghost struct VaultView {
    pub schema: Map<Seq<char>, Seq<char>>,
    pub expanded: bool,
}

impl View for Vault {
    type V = VaultView;

    open spec fn view(&self) -> VaultView {
        VaultView { schema: self.schema@, expanded: self.expanded }
    }
}

/// The directory after a snapshot: the vaults of the snapshot with their
/// schemas; a vault that was known before keeps its `expanded` flag, a new one
/// starts folded.
pub open spec fn synced(
    before: Map<Seq<char>, VaultView>,
    info: Map<Seq<char>, Map<Seq<char>, Seq<char>>>,
) -> Map<Seq<char>, VaultView> {
    Map::new(
        |n: Seq<char>| info.contains_key(n),
        |n: Seq<char>|
            VaultView {
                schema: info[n],
                expanded: before.contains_key(n) && before[n].expanded,
            },
    )
}

/// The directory with the `expanded` flag of one vault flipped, if it is known.
pub open spec fn toggled(dir: Map<Seq<char>, VaultView>, name: Seq<char>) -> Map<
    Seq<char>,
    VaultView,
> {
    if dir.contains_key(name) {
        dir.insert(name, VaultView { schema: dir[name].schema, expanded: !dir[name].expanded })
    } else {
        dir
    }
}

/// The local mirror of the remote directory.
#[derive(Debug)]
pub struct Directory {
    vaults: Vec<Vault>,
}

impl View for Directory {
    type V = Map<Seq<char>, VaultView>;

    closed spec fn view(&self) -> Map<Seq<char>, VaultView> {
        map_of(self.pairs())
    }
}

impl Directory {
    /// The vaults in stored order: the name of each and what is known of it.
    pub closed spec fn pairs(&self) -> Seq<(Seq<char>, VaultView)> {
        Seq::new(self.vaults@.len(), |i: int| (self.vaults@[i].name@, self.vaults@[i]@))
    }

    /// The vaults are stored by increasing name, and every schema is well
    /// formed.
    pub closed spec fn wf(&self) -> bool {
        &&& sorted_keys(self.pairs())
        &&& forall|i: int| 0 <= i < self.vaults@.len() ==> (#[trigger] self.vaults@[i]).schema.wf()
    }

    pub fn new() -> (r: Directory)
        ensures
            r.wf(),
            r@ == Map::<Seq<char>, VaultView>::empty(),
    {
        let r = Directory { vaults: Vec::new() };
        proof {
            lemma_map_of_empty(r.pairs());
        }
        r
    }

    fn find(&self, name: &String) -> (r: Option<usize>)
        ensures
            match r {
                Some(i) => i < self.vaults@.len() && self.pairs()[i as int].0 == name@,
                None => !has_key(self.pairs(), name@),
            },
    {
        let mut i: usize = 0;
        while i < self.vaults.len()
            invariant
                i <= self.vaults@.len(),
                forall|j: int| 0 <= j < i ==> (#[trigger] self.pairs()[j]).0 != name@,
            decreases self.vaults@.len() - i,
        {
            if self.vaults[i].name == *name {
                return Some(i);
            }
            i += 1;
        }
        None
    }

    /// What is known of the vault of this name.
    pub fn get(&self, name: &String) -> (r: Option<&Vault>)
        requires
            self.wf(),
        ensures
            match r {
                Some(v) => self@.contains_key(name@) && v@ == self@[name@] && v.schema.wf()
                    && v.name@ == name@,
                None => !self@.contains_key(name@),
            },
    {
        match self.find(name) {
            Some(i) => {
                proof {
                    lemma_sorted_distinct(self.pairs());
                    lemma_map_of_at(self.pairs(), i as int);
                }
                Some(&self.vaults[i])
            },
            None => None,
        }
    }

    /// The names of the vaults, in increasing order.
    pub fn names(&self) -> (r: Vec<String>)
        requires
            self.wf(),
        ensures
            forall|i: int, j: int| 0 <= i < j < r@.len() ==> text_lt(r@[i]@, r@[j]@),
            forall|i: int| 0 <= i < r@.len() ==> self@.contains_key((#[trigger] r@[i])@),
            forall|k: Seq<char>|
                self@.contains_key(k) ==> exists|i: int| 0 <= i < r@.len() && (#[trigger] r@[i])@ == k,
    {
        let mut out: Vec<String> = Vec::new();
        let mut i: usize = 0;
        while i < self.vaults.len()
            invariant
                i <= self.vaults@.len(),
                out@.len() == i,
                forall|j: int| 0 <= j < i ==> (#[trigger] out@[j])@ == self.vaults@[j].name@,
            decreases self.vaults@.len() - i,
        {
            out.push(self.vaults[i].name.clone());
            i += 1;
        }
        proof {
            let p = self.pairs();
            lemma_sorted_distinct(p);
            assert forall|a: int, b: int| 0 <= a < b < out@.len() implies text_lt(
                out@[a]@,
                out@[b]@,
            ) by {
                assert(out@[a]@ == p[a].0);
                assert(out@[b]@ == p[b].0);
            }
            assert forall|a: int| 0 <= a < out@.len() implies self@.contains_key(
                (#[trigger] out@[a])@,
            ) by {
                assert(out@[a]@ == p[a].0);
                lemma_map_of_at(p, a);
            }
            assert forall|k: Seq<char>| self@.contains_key(k) implies exists|a: int|
                0 <= a < out@.len() && (#[trigger] out@[a])@ == k by {
                let a = position_of(p, k);
                assert(out@[a]@ == k);
            }
        }
        out
    }

    /// Flips the `expanded` flag of the vault of this name, if it is known.
    pub fn toggle(&mut self, name: &String)
        requires
            old(self).wf(),
        ensures
            final(self).wf(),
            final(self)@ == toggled(old(self)@, name@),
    {
        let found = self.find(name);
        let ghost before = self.pairs();
        match found {
            Some(i) => {
                proof {
                    lemma_sorted_distinct(before);
                    lemma_map_of_at(before, i as int);
                    lemma_map_of_update(
                        before,
                        i as int,
                        VaultView { schema: before[i as int].1.schema, expanded: !before[i as int].1.expanded },
                    );
                }
                let ghost old_vaults = self.vaults@;
                let flag = self.vaults[i].expanded;
                let schema = self.vaults[i].schema.duplicate();
                let vault_name = self.vaults[i].name.clone();
                self.vaults.set(i, Vault { name: vault_name, schema, expanded: !flag });
                assert(self.pairs() =~= before.update(
                    i as int,
                    (
                        before[i as int].0,
                        VaultView { schema: before[i as int].1.schema, expanded: !before[i as int].1.expanded },
                    ),
                ));
                assert forall|j: int| 0 <= j < self.vaults@.len() implies (
                #[trigger] self.vaults@[j]).schema.wf() by {
                    if j != i as int {
                        assert(self.vaults@[j] == old_vaults[j]);
                    }
                }
                assert forall|a: int, b: int| 0 <= a < b < self.pairs().len() implies text_lt(
                    (#[trigger] self.pairs()[a]).0,
                    (#[trigger] self.pairs()[b]).0,
                ) by {
                    assert(self.pairs()[a].0 == before[a].0);
                    assert(self.pairs()[b].0 == before[b].0);
                }
            },
            None => {},
        }
    }

    /// The directory that a snapshot gives, with the `expanded` flags of this one.
    pub fn rebuild(&self, info: &Info) -> (r: Directory)
        requires
            self.wf(),
            info.wf(),
        ensures
            r.wf(),
            r@ == synced(self@, info@),
    {
        let mut vaults: Vec<Vault> = Vec::new();
        let mut i: usize = 0;
        while i < info.data.len()
            invariant
                i <= info.data@.len(),
                self.wf(),
                info.wf(),
                vaults@.len() == i,
                forall|j: int|
                    0 <= j < i ==> {
                        &&& (#[trigger] vaults@[j]).name@ == info.pairs()[j].0
                        &&& vaults@[j].schema@ == info.pairs()[j].1
                        &&& vaults@[j].schema.wf()
                        &&& vaults@[j].expanded == (self@.contains_key(info.pairs()[j].0)
                            && self@[info.pairs()[j].0].expanded)
                    },
            decreases info.data@.len() - i,
        {
            let name = info.data[i].0.clone();
            let schema = info.data[i].1.duplicate();
            let expanded = match self.get(&name) {
                Some(v) => v.expanded,
                None => false,
            };
            vaults.push(Vault { name, schema, expanded });
            i += 1;
        }
        let r = Directory { vaults };
        proof {
            let rp = r.pairs();
            let ip = info.pairs();
            assert(rp.len() == ip.len());
            assert forall|a: int, b: int| 0 <= a < b < rp.len() implies text_lt(
                (#[trigger] rp[a]).0,
                (#[trigger] rp[b]).0,
            ) by {
                assert(text_lt(ip[a].0, ip[b].0));
            }
            lemma_sorted_distinct(rp);
            lemma_sorted_distinct(ip);
            let want = synced(self@, info@);
            assert forall|n: Seq<char>| #[trigger] r@.contains_key(n) <==> want.contains_key(n) by {
                if has_key(rp, n) {
                    let a = position_of(rp, n);
                    assert(ip[a].0 == n);
                }
                if has_key(ip, n) {
                    let a = position_of(ip, n);
                    assert(rp[a].0 == n);
                }
            }
            assert forall|n: Seq<char>| r@.contains_key(n) implies #[trigger] r@[n] == want[n] by {
                let a = position_of(rp, n);
                lemma_map_of_at(rp, a);
                assert(ip[a].0 == n);
                lemma_map_of_at(ip, a);
            }
            assert(r@ =~= want);
        }
        r
    }
}

/// The last record that `s` holds under `k`.
pub open spec fn last_under(s: Seq<(Seq<char>, StoreView)>, k: Seq<char>) -> Option<StoreView>
    decreases s.len(),
{
    if s.len() == 0 {
        None
    } else if s.last().0 == k {
        Some(s.last().1)
    } else {
        last_under(s.drop_last(), k)
    }
}

/// The entries that the remote store returned for a read, each under its key.
#[derive(Debug)]
pub struct Reads {
    pub data: Vec<(String, Store)>,
}

impl View for Reads {
    type V = Seq<(Seq<char>, StoreView)>;

    open spec fn view(&self) -> Seq<(Seq<char>, StoreView)> {
        Seq::new(self.data@.len(), |i: int| (self.data@[i].0@, self.data@[i].1@))
    }
}

impl Reads {
    /// The record returned under `key`; the last one where there are several.
    pub fn get(&self, key: &String) -> (r: Option<&Store>)
        ensures
            match r {
                Some(s) => last_under(self@, key@) == Some(s@),
                None => last_under(self@, key@).is_none(),
            },
    {
        let mut i: usize = self.data.len();
        assert(self@.take(i as int) =~= self@);
        while i > 0
            invariant
                i <= self.data@.len(),
                last_under(self@, key@) == last_under(self@.take(i as int), key@),
            decreases i,
        {
            assert(self@.take(i as int).last() == self@[i - 1]);
            assert(self@.take(i as int).drop_last() =~= self@.take(i - 1));
            if self.data[i - 1].0 == *key {
                return Some(&self.data[i - 1].1);
            }
            i -= 1;
        }
        None
    }
}

} // verus!
