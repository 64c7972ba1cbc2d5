use vstd::prelude::*;

use crate::exchanges::{copy_markets, Market};

verus! {

/// One registry entry: an exchange identity and its latest markets.
pub type RegistryEntry = (String, Vec<Market>);

/// The mapping that a list of entries denotes: each identity to the markets
/// of the entry that carries it.
pub open spec fn entries_view(s: Seq<RegistryEntry>) -> Map<Seq<char>, Seq<Market>> {
    Map::new(
        |k: Seq<char>| exists|i: int| 0 <= i < s.len() && s[i].0@ == k,
        |k: Seq<char>| s[choose|i: int| 0 <= i < s.len() && s[i].0@ == k].1@,
    )
}

/// No identity occurs twice.
pub open spec fn keys_unique(s: Seq<RegistryEntry>) -> bool {
    forall|i: int, j: int| 0 <= i < s.len() && 0 <= j < s.len() && i != j ==> s[i].0@ != s[j].0@
}

/// Latest market list per exchange identity.
pub struct MarketRegistry {
    entries: Vec<RegistryEntry>,
}

proof fn lemma_view_at(s: Seq<RegistryEntry>, i: int)
    requires
        keys_unique(s),
        0 <= i < s.len(),
    ensures
        entries_view(s).contains_key(s[i].0@),
        entries_view(s)[s[i].0@] == s[i].1@,
{
    let k = s[i].0@;
    assert(0 <= i < s.len() && s[i].0@ == k);
    let j = choose|j: int| 0 <= j < s.len() && s[j].0@ == k;
    assert(j == i);
}

impl MarketRegistry {
    pub closed spec fn view(&self) -> Map<Seq<char>, Seq<Market>> {
        entries_view(self.entries@)
    }

    pub closed spec fn wf(&self) -> bool {
        keys_unique(self.entries@)
    }

    /// An empty registry.
    pub fn new() -> (r: MarketRegistry)
        ensures
            r.wf(),
            r@ == Map::<Seq<char>, Seq<Market>>::empty(),
    {
        let r = MarketRegistry { entries: Vec::new() };
        assert(r@ =~= Map::<Seq<char>, Seq<Market>>::empty());
        r
    }

    fn find(&self, id: &str) -> (r: Option<usize>)
        requires
            self.wf(),
        ensures
            match r {
                Some(i) => i < self.entries@.len() && self.entries@[i as int].0@ == id@,
                None => !self@.contains_key(id@),
            },
    {
        let key = String::from_str(id);
        let mut i: usize = 0;
        while i < self.entries.len()
            invariant
                i <= self.entries@.len(),
                key@ == id@,
                forall|j: int| 0 <= j < i ==> self.entries@[j].0@ != id@,
            decreases self.entries.len() - i,
        {
            if self.entries[i].0 == key {
                return Some(i);
            }
            i = i + 1;
        }
        None
    }

    /// Replaces the entry of `id` wholesale with `markets`.
    pub fn upsert(&mut self, id: &str, markets: Vec<Market>)
        requires
            old(self).wf(),
        ensures
            final(self).wf(),
            final(self)@ == old(self)@.insert(id@, markets@),
    {
        let ghost m = markets@;
        let ghost before = self.entries@;
        match self.find(id) {
            Some(i) => {
                let key = self.entries[i].0.clone();
                self.entries.set(i, (key, markets));
                proof {
                    let after = self.entries@;
                    assert(keys_unique(after));
                    assert forall|k: Seq<char>| #[trigger]
                        entries_view(after).contains_key(k) == old(self)@.insert(id@, m).contains_key(k) by {
                        if entries_view(after).contains_key(k) {
                            let j = choose|j: int| 0 <= j < after.len() && after[j].0@ == k;
                            assert(before[j].0@ == k);
                        }
                        if old(self)@.contains_key(k) {
                            let j = choose|j: int| 0 <= j < before.len() && before[j].0@ == k;
                            assert(after[j].0@ == k);
                        }
                        if k == id@ {
                            assert(after[i as int].0@ == k);
                        }
                    }
                    assert forall|k: Seq<char>| #[trigger] entries_view(after).contains_key(k)
                        implies entries_view(after)[k] == old(self)@.insert(id@, m)[k] by {
                        let j = choose|j: int| 0 <= j < after.len() && after[j].0@ == k;
                        lemma_view_at(after, j);
                        if j != i {
                            lemma_view_at(before, j);
                        }
                    }
                    assert(entries_view(after) =~= old(self)@.insert(id@, m));
                }
            },
            None => {
                let key = String::from_str(id);
                self.entries.push((key, markets));
                proof {
                    let after = self.entries@;
                    assert(keys_unique(after)) by {
                        assert forall|j: int| 0 <= j < before.len() implies before[j].0@ != id@ by {
                            if before[j].0@ == id@ {
                                assert(old(self)@.contains_key(id@));
                            }
                        }
                    }
                    assert forall|k: Seq<char>| #[trigger]
                        entries_view(after).contains_key(k) == old(self)@.insert(id@, m).contains_key(k) by {
                        if entries_view(after).contains_key(k) {
                            let j = choose|j: int| 0 <= j < after.len() && after[j].0@ == k;
                            if j < before.len() {
                                assert(before[j].0@ == k);
                            }
                        }
                        if old(self)@.contains_key(k) {
                            let j = choose|j: int| 0 <= j < before.len() && before[j].0@ == k;
                            assert(after[j].0@ == k);
                        }
                        if k == id@ {
                            assert(after[before.len() as int].0@ == k);
                        }
                    }
                    assert forall|k: Seq<char>| #[trigger] entries_view(after).contains_key(k)
                        implies entries_view(after)[k] == old(self)@.insert(id@, m)[k] by {
                        let j = choose|j: int| 0 <= j < after.len() && after[j].0@ == k;
                        lemma_view_at(after, j);
                        if j < before.len() {
                            lemma_view_at(before, j);
                        }
                    }
                    assert(entries_view(after) =~= old(self)@.insert(id@, m));
                }
            },
        }
    }

    /// The markets last stored for `id`, if any.
    pub fn get(&self, id: &str) -> (r: Option<Vec<Market>>)
        requires
            self.wf(),
        ensures
            match r {
                Some(v) => self@.contains_key(id@) && v@ == self@[id@],
                None => !self@.contains_key(id@),
            },
    {
        match self.find(id) {
            Some(i) => {
                proof {
                    lemma_view_at(self.entries@, i as int);
                }
                Some(copy_markets(&self.entries[i].1))
            },
            None => None,
        }
    }

    /// A point-in-time copy of every entry.
    pub fn snapshot_all(&self) -> (r: Vec<RegistryEntry>)
        requires
            self.wf(),
        ensures
            keys_unique(r@),
            entries_view(r@) == self@,
    {
        let mut r: Vec<RegistryEntry> = Vec::new();
        let mut i: usize = 0;
        while i < self.entries.len()
            invariant
                i <= self.entries@.len(),
                r@.len() == i,
                forall|j: int| 0 <= j < i ==> (#[trigger] r@[j]).0@ == self.entries@[j].0@
                    && r@[j].1@ == self.entries@[j].1@,
            decreases self.entries.len() - i,
        {
            let e = &self.entries[i];
            r.push((e.0.clone(), copy_markets(&e.1)));
            i = i + 1;
        }
        proof {
            let s = self.entries@;
            assert(keys_unique(r@)) by {
                assert forall|a: int, b: int|
                    0 <= a < r@.len() && 0 <= b < r@.len() && a != b implies r@[a].0@ != r@[b].0@ by {
                    assert(r@[a].0@ == s[a].0@);
                    assert(r@[b].0@ == s[b].0@);
                }
            }
            assert forall|k: Seq<char>| #[trigger]
                entries_view(r@).contains_key(k) == entries_view(s).contains_key(k) by {
                if entries_view(r@).contains_key(k) {
                    let j = choose|j: int| 0 <= j < r@.len() && r@[j].0@ == k;
                    assert(s[j].0@ == k);
                }
                if entries_view(s).contains_key(k) {
                    let j = choose|j: int| 0 <= j < s.len() && s[j].0@ == k;
                    assert(r@[j].0@ == k);
                }
            }
            assert forall|k: Seq<char>| #[trigger] entries_view(r@).contains_key(k)
                implies entries_view(r@)[k] == entries_view(s)[k] by {
                let j = choose|j: int| 0 <= j < r@.len() && r@[j].0@ == k;
                lemma_view_at(r@, j);
                lemma_view_at(s, j);
            }
            assert(entries_view(r@) =~= entries_view(s));
        }
        r
    }
}

/// Registry law: once `upsert(id, markets)` has completed, a snapshot taken
/// afterwards (whatever the registry held before) has exactly one entry for
/// `id`, and that entry holds exactly `markets`: never an older list, never
/// a mix of two calls.
pub proof fn lemma_snapshot_reflects_last_upsert(
    before: Map<Seq<char>, Seq<Market>>,
    id: Seq<char>,
    markets: Seq<Market>,
    snap: Seq<RegistryEntry>,
)
    requires
        keys_unique(snap),
        entries_view(snap) == before.insert(id, markets),
    ensures
        exists|i: int| 0 <= i < snap.len() && snap[i].0@ == id,
        forall|i: int| 0 <= i < snap.len() && snap[i].0@ == id ==> snap[i].1@ == markets,
{
    assert(entries_view(snap).contains_key(id));
    assert forall|i: int| 0 <= i < snap.len() && snap[i].0@ == id implies snap[i].1@ == markets by {
        lemma_view_at(snap, i);
    }
}

} // verus!
