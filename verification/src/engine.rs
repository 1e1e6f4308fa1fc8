//! In-memory model of the tracking engine consumed by the administrative
//! interface: entity storage keyed by 20-byte identifiers, per-entity
//! statistics and the mutations the action routes dispatch.

use vstd::prelude::*;

verus! {

/// Statistics and flag state of one tracked entity.
#[derive(Clone, Copy, PartialEq, Eq, Structural, Debug)]
pub struct TorrentEntry {
    pub seeders: u32,
    pub completed: u32,
    pub leechers: u32,
    pub flagged: bool,
}

/// The entry a freshly registered identifier starts with.
pub open spec fn blank_entry() -> TorrentEntry {
    TorrentEntry { seeders: 0, completed: 0, leechers: 0, flagged: false }
}

pub open spec fn with_flag(e: TorrentEntry, flag: bool) -> TorrentEntry {
    TorrentEntry { flagged: flag, ..e }
}

pub open spec fn with_stats(e: TorrentEntry, seeders: u32, completed: u32, leechers: u32) -> TorrentEntry {
    TorrentEntry { seeders, completed, leechers, ..e }
}

impl TorrentEntry {
    pub fn new() -> (r: TorrentEntry)
        ensures
            r == blank_entry(),
    {
        TorrentEntry { seeders: 0, completed: 0, leechers: 0, flagged: false }
    }

    pub fn is_flagged(&self) -> (r: bool)
        ensures
            r == self.flagged,
    {
        self.flagged
    }

    /// Statistics triple in the order the info route reports: seeders,
    /// completions, leechers.
    pub fn get_stats(&self) -> (r: (u32, u32, u32))
        ensures
            r == (self.seeders, self.completed, self.leechers),
    {
        (self.seeders, self.completed, self.leechers)
    }
}

/// Abstract engine state: the stored entities in their stored order.
pub type EngineModel = Seq<(Seq<u8>, TorrentEntry)>;

pub open spec fn has_id(m: EngineModel, id: Seq<u8>) -> bool {
    exists|i: int| 0 <= i < m.len() && (#[trigger] m[i]).0 == id
}

pub open spec fn idx_of(m: EngineModel, id: Seq<u8>) -> int {
    choose|i: int| 0 <= i < m.len() && (#[trigger] m[i]).0 == id
}

pub open spec fn spec_lookup(m: EngineModel, id: Seq<u8>) -> Option<TorrentEntry> {
    if has_id(m, id) {
        Some(m[idx_of(m, id)].1)
    } else {
        None
    }
}

/// Flagging rewrites the matching entry in place and touches nothing else.
pub open spec fn spec_set_flag(m: EngineModel, id: Seq<u8>, flag: bool) -> EngineModel {
    Seq::new(
        m.len(),
        |i: int|
            if m[i].0 == id {
                (m[i].0, with_flag(m[i].1, flag))
            } else {
                m[i]
            },
    )
}

pub open spec fn spec_set_stats(
    m: EngineModel,
    id: Seq<u8>,
    seeders: u32,
    completed: u32,
    leechers: u32,
) -> EngineModel {
    Seq::new(
        m.len(),
        |i: int|
            if m[i].0 == id {
                (m[i].0, with_stats(m[i].1, seeders, completed, leechers))
            } else {
                m[i]
            },
    )
}

/// Registration appends a blank entry, and fails exactly on a duplicate
/// identifier or a full store.
pub open spec fn spec_add(m: EngineModel, id: Seq<u8>) -> (EngineModel, bool) {
    if has_id(m, id) || m.len() >= u32::MAX {
        (m, false)
    } else {
        (m.push((id, blank_entry())), true)
    }
}

/// Removal drops the matching entry and keeps the order of the rest.
pub open spec fn spec_remove(m: EngineModel, id: Seq<u8>) -> (EngineModel, bool) {
    if has_id(m, id) {
        (m.remove(idx_of(m, id)), true)
    } else {
        (m, false)
    }
}

/// Identifiers are 20 bytes, unique, and countable in a u32.
pub open spec fn engine_inv(m: EngineModel) -> bool {
    &&& m.len() <= u32::MAX
    &&& forall|i: int| 0 <= i < m.len() ==> (#[trigger] m[i]).0.len() == 20
    &&& forall|i: int, j: int| 0 <= i < j < m.len() ==> m[i].0 != m[j].0
}

/// Compares two binary identifiers byte for byte.
fn id_eq(a: &[u8; 20], b: &[u8; 20]) -> (r: bool)
    ensures
        r == (a@ == b@),
{
    let mut i: usize = 0;
    while i < 20
        invariant
            i <= 20,
            forall|j: int| 0 <= j < i ==> a@[j] == b@[j],
        decreases 20 - i,
    {
        if a[i] != b[i] {
            return false;
        }
        i = i + 1;
    }
    proof {
        assert(a@ =~= b@);
    }
    true
}

/// The tracking engine's entity store, in stored (insertion) order.
pub struct TrackerEngine {
    entries: Vec<([u8; 20], TorrentEntry)>,
}

spec fn model_of(s: Seq<([u8; 20], TorrentEntry)>) -> EngineModel {
    s.map(|i: int, p: ([u8; 20], TorrentEntry)| (p.0@, p.1))
}

impl TrackerEngine {
    /// The stored entities as a sequence of identifier/entry pairs.
    pub closed spec fn model(&self) -> EngineModel {
        model_of(self.entries@)
    }

    #[verifier::type_invariant]
    spec fn inv(&self) -> bool {
        engine_inv(self.model())
    }

    pub fn new() -> (r: TrackerEngine)
        ensures
            r.model() == Seq::<(Seq<u8>, TorrentEntry)>::empty(),
    {
        let r = TrackerEngine { entries: Vec::new() };
        proof {
            assert(r.model() =~= Seq::<(Seq<u8>, TorrentEntry)>::empty());
        }
        r
    }

    /// Number of stored entities.
    pub fn count(&self) -> (r: u32)
        ensures
            r as nat == self.model().len(),
    {
        proof {
            use_type_invariant(&*self);
        }
        self.entries.len() as u32
    }

    /// Identifier of the entity at a position of the stored order.
    pub fn id_at(&self, i: usize) -> (r: [u8; 20])
        requires
            i < self.model().len(),
        ensures
            r@ == self.model()[i as int].0,
    {
        self.entries[i].0
    }

    fn find_index(&self, id: &[u8; 20]) -> (r: Option<usize>)
        ensures
            match r {
                Some(i) => i < self.model().len() && self.model()[i as int].0 == id@,
                None => !has_id(self.model(), id@),
            },
    {
        let n = self.entries.len();
        let mut i: usize = 0;
        while i < n
            invariant
                i <= n,
                n == self.entries@.len(),
                forall|j: int| 0 <= j < i ==> (#[trigger] self.model()[j]).0 != id@,
            decreases n - i,
        {
            if id_eq(&self.entries[i].0, id) {
                return Some(i);
            }
            i = i + 1;
        }
        None
    }

    /// Looks an identifier up, yielding its entry when stored.
    pub fn lookup(&self, id: &[u8; 20]) -> (r: Option<TorrentEntry>)
        ensures
            r == spec_lookup(self.model(), id@),
    {
        proof {
            use_type_invariant(&*self);
        }
        match self.find_index(id) {
            Some(i) => {
                proof {
                    let k = idx_of(self.model(), id@);
                    assert(0 <= k < self.model().len() && self.model()[k].0 == id@);
                    assert(k == i);
                }
                Some(self.entries[i].1)
            },
            None => None,
        }
    }

    /// Sets or clears the flag of the matching entity; reports whether one
    /// was stored.
    pub fn set_flag(&mut self, id: &[u8; 20], flag: bool) -> (r: bool)
        ensures
            final(self).model() == spec_set_flag(old(self).model(), id@, flag),
            r == has_id(old(self).model(), id@),
    {
        proof {
            use_type_invariant(&*self);
        }
        let ghost m0 = self.model();
        match self.find_index(id) {
            None => {
                proof {
                    assert(m0 =~= spec_set_flag(m0, id@, flag));
                }
                false
            },
            Some(i) => {
                let p = self.entries[i];
                let e = TorrentEntry { flagged: flag, ..p.1 };
                let mut entries: Vec<([u8; 20], TorrentEntry)> = Vec::new();
                proof {
                    assert(engine_inv(model_of(entries@)));
                }
                core::mem::swap(&mut self.entries, &mut entries);
                entries.set(i, (p.0, e));
                proof {
                    assert(model_of(entries@) =~= spec_set_flag(m0, id@, flag));
                    assert(engine_inv(model_of(entries@)));
                }
                core::mem::swap(&mut self.entries, &mut entries);
                true
            },
        }
    }

    /// Overwrites the statistics of the matching entity; reports whether one
    /// was stored.
    pub fn set_stats(&mut self, id: &[u8; 20], seeders: u32, completed: u32, leechers: u32) -> (r:
        bool)
        ensures
            final(self).model() == spec_set_stats(old(self).model(), id@, seeders, completed, leechers),
            r == has_id(old(self).model(), id@),
    {
        proof {
            use_type_invariant(&*self);
        }
        let ghost m0 = self.model();
        match self.find_index(id) {
            None => {
                proof {
                    assert(m0 =~= spec_set_stats(m0, id@, seeders, completed, leechers));
                }
                false
            },
            Some(i) => {
                let p = self.entries[i];
                let e = TorrentEntry { seeders, completed, leechers, ..p.1 };
                let mut entries: Vec<([u8; 20], TorrentEntry)> = Vec::new();
                proof {
                    assert(engine_inv(model_of(entries@)));
                }
                core::mem::swap(&mut self.entries, &mut entries);
                entries.set(i, (p.0, e));
                proof {
                    assert(model_of(entries@) =~= spec_set_stats(m0, id@, seeders, completed, leechers));
                    assert(engine_inv(model_of(entries@)));
                }
                core::mem::swap(&mut self.entries, &mut entries);
                true
            },
        }
    }

    /// Registers a brand-new identifier with a blank entry; fails on a
    /// duplicate or a full store.
    pub fn add(&mut self, id: &[u8; 20]) -> (r: bool)
        ensures
            final(self).model() == spec_add(old(self).model(), id@).0,
            r == spec_add(old(self).model(), id@).1,
    {
        proof {
            use_type_invariant(&*self);
        }
        let ghost m0 = self.model();
        match self.find_index(id) {
            Some(_) => false,
            None => {
                if self.entries.len() < u32::MAX as usize {
                    let mut entries: Vec<([u8; 20], TorrentEntry)> = Vec::new();
                    proof {
                        assert(engine_inv(model_of(entries@)));
                    }
                    core::mem::swap(&mut self.entries, &mut entries);
                    entries.push((*id, TorrentEntry::new()));
                    proof {
                        assert(model_of(entries@) =~= m0.push((id@, blank_entry())));
                        assert(engine_inv(model_of(entries@)));
                    }
                    core::mem::swap(&mut self.entries, &mut entries);
                    true
                } else {
                    false
                }
            },
        }
    }

    /// Removes the matching entity, keeping the order of the rest; the
    /// cascade switch belongs to engine-side cleanup and does not change
    /// what is stored here.
    pub fn remove(&mut self, id: &[u8; 20], _cascade: bool) -> (r: bool)
        ensures
            final(self).model() == spec_remove(old(self).model(), id@).0,
            r == spec_remove(old(self).model(), id@).1,
    {
        proof {
            use_type_invariant(&*self);
        }
        let ghost m0 = self.model();
        match self.find_index(id) {
            None => false,
            Some(i) => {
                proof {
                    let k = idx_of(m0, id@);
                    assert(0 <= k < m0.len() && m0[k].0 == id@);
                    assert(k == i);
                }
                let mut entries: Vec<([u8; 20], TorrentEntry)> = Vec::new();
                proof {
                    assert(engine_inv(model_of(entries@)));
                }
                core::mem::swap(&mut self.entries, &mut entries);
                entries.remove(i);
                proof {
                    assert(model_of(entries@) =~= m0.remove(i as int));
                    assert(engine_inv(model_of(entries@)));
                }
                core::mem::swap(&mut self.entries, &mut entries);
                true
            },
        }
    }
}

} // verus!
