//! The pending-invocation table of the request/response binding: a map
//! from correlation id to the suspended connection awaiting a result.
//! An entry is inserted when a payload is submitted and removed exactly
//! once when the responder fires for its id.

use vstd::prelude::*;

use vstd::hash_map::StringHashMap;

verus! {

/// What the table holds for one outstanding invocation: a token naming
/// the suspended connection (the caller maps it back to the real handle)
/// and the origin the request declared, kept so the eventual response can
/// be gated against the allowlist it was received under.
pub struct PendingEntry {
    pub conn: u64,
    pub origin: Option<String>,
}

/// The mathematical value of an entry.
pub struct PendingEntryModel {
    pub conn: u64,
    pub origin: Option<Seq<char>>,
}

impl PendingEntry {
    /// The entry as a mathematical value.
    pub open spec fn view(&self) -> PendingEntryModel {
        PendingEntryModel {
            conn: self.conn,
            origin: match self.origin {
                Some(o) => Some(o@),
                None => None,
            },
        }
    }

    /// A copy of the entry with the same value.
    pub fn duplicate(&self) -> (r: Self)
        ensures
            r@ == self@,
    {
        PendingEntry {
            conn: self.conn,
            origin: match &self.origin {
                Some(o) => Some(o.clone()),
                None => None,
            },
        }
    }
}

/// Why a table operation failed: `Duplicate` when an id to be inserted is
/// already outstanding, `NotFound` when a removal names an id with no
/// entry — the latter marks a host that broke the one-result-per-payload
/// contract.
#[derive(Clone, Copy, PartialEq, Eq, Structural, Debug)]
pub enum TableError {
    Duplicate,
    NotFound,
}

/// The correlation table. All shared access is to be serialized by the
/// caller (the listener and the responders lock around these calls); the
/// operations themselves are plain map updates.
pub struct PendingTable {
    entries: StringHashMap<PendingEntry>,
}

impl PendingTable {
    /// The table as a map from correlation id to entry value.
    pub closed spec fn view(&self) -> Map<Seq<char>, PendingEntryModel> {
        Map::new(
            |id: Seq<char>| self.entries@.contains_key(id),
            |id: Seq<char>| self.entries@[id]@,
        )
    }

    /// An empty table: no invocation is outstanding.
    pub fn new() -> (r: Self)
        ensures
            r@ == Map::<Seq<char>, PendingEntryModel>::empty(),
    {
        let r = PendingTable { entries: StringHashMap::new() };
        proof {
            assert(r@ =~= Map::<Seq<char>, PendingEntryModel>::empty());
        }
        r
    }

    /// Whether an entry is outstanding for `id`.
    pub fn contains(&self, id: &str) -> (r: bool)
        ensures
            r == self@.contains_key(id@),
    {
        self.entries.contains_key(id)
    }

    /// Registers a submitted invocation under its correlation id. Succeeds
    /// exactly when the id is not already outstanding, and then adds the
    /// one entry and touches no other; on a duplicate id the table is
    /// unchanged, keeping at most one entry per live id.
    pub fn insert(&mut self, id: String, entry: PendingEntry) -> (r: Result<(), TableError>)
        ensures
            match r {
                Ok(()) => !old(self)@.contains_key(id@)
                    && final(self)@ == old(self)@.insert(id@, entry@),
                Err(e) => e == TableError::Duplicate
                    && old(self)@.contains_key(id@)
                    && final(self)@ == old(self)@,
            },
    {
        if self.entries.contains_key(id.as_str()) {
            Err(TableError::Duplicate)
        } else {
            let ghost before = self@;
            self.entries.insert(id, entry);
            proof {
                assert(self@ =~= before.insert(id@, entry@));
            }
            Ok(())
        }
    }

    /// Claims and removes the entry for `id`, the single atomic step the
    /// responder takes before writing a response. Returns the entry and
    /// leaves every other id's entry untouched; a second removal for the
    /// same id finds nothing and fails with `NotFound`, with the table
    /// unchanged.
    pub fn remove(&mut self, id: &str) -> (r: Result<PendingEntry, TableError>)
        ensures
            match r {
                Ok(entry) => old(self)@.contains_key(id@)
                    && entry@ == old(self)@[id@]
                    && final(self)@ == old(self)@.remove(id@),
                Err(e) => e == TableError::NotFound
                    && !old(self)@.contains_key(id@)
                    && final(self)@ == old(self)@,
            },
    {
        let found = match self.entries.get(id) {
            Some(entry) => Some(entry.duplicate()),
            None => None,
        };
        match found {
            Some(entry) => {
                let ghost before = self@;
                self.entries.remove(id);
                proof {
                    assert(self@ =~= before.remove(id@));
                }
                Ok(entry)
            }
            None => Err(TableError::NotFound),
        }
    }
}

/// Concurrent invocations under distinct correlation ids are answered
/// independently: registering one id, or claiming and removing it to
/// answer it, leaves every other id's entry present and unchanged.
pub proof fn lemma_entries_independent(
    m: Map<Seq<char>, PendingEntryModel>,
    id1: Seq<char>,
    id2: Seq<char>,
    e: PendingEntryModel,
)
    requires
        id1 != id2,
        m.contains_key(id2),
    ensures
        m.remove(id1).contains_key(id2) && m.remove(id1)[id2] == m[id2],
        m.insert(id1, e).contains_key(id2) && m.insert(id1, e)[id2] == m[id2],
{
}

/// Delivery is at most once: after the entry for an id is claimed and
/// removed, no entry remains for it, so a second delivery attempt for the
/// same id finds nothing and fails instead of answering anew.
pub proof fn lemma_at_most_one_delivery(m: Map<Seq<char>, PendingEntryModel>, id: Seq<char>)
    ensures
        !m.remove(id).contains_key(id),
{
}

} // verus!
