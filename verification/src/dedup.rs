//! The dedup index: a snapshot of the ledger's content hashes.
//!
//! The snapshot is loaded once, before the pipeline starts, from the rows of
//! the ledger table, and is read-only for the rest of the run. The scanner
//! consults it to drop records whose content hash was already persisted by an
//! earlier run.

use vstd::prelude::*;
use crate::record::HashedTxRow;

verus! {

/// The set of content-hash pairs a sequence of ledger rows holds.
pub open spec fn rows_hash_set(rows: Seq<HashedTxRow>) -> Set<(Seq<char>, Seq<char>)> {
    rows.map_values(|r: HashedTxRow| r@).to_set()
}

/// The snapshot of content hashes already persisted in the ledger.
pub struct DedupIndex {
    rows: Vec<HashedTxRow>,
}

impl View for DedupIndex {
    type V = Set<(Seq<char>, Seq<char>)>;

    closed spec fn view(&self) -> Set<(Seq<char>, Seq<char>)> {
        rows_hash_set(self.rows@)
    }
}

impl DedupIndex {
    /// Builds the snapshot from the rows of the ledger table, as read once at
    /// start-up.
    pub fn from_rows(rows: Vec<HashedTxRow>) -> (index: DedupIndex)
        ensures
            index@ == rows_hash_set(rows@),
    {
        DedupIndex { rows }
    }

    /// Whether the snapshot holds this content hash.
    pub fn contains(&self, h: &HashedTxRow) -> (r: bool)
        ensures
            r == self@.contains(h@),
    {
        let ghost mapped = self.rows@.map_values(|row: HashedTxRow| row@);
        let mut i: usize = 0;
        while i < self.rows.len()
            invariant
                i <= self.rows.len(),
                mapped == self.rows@.map_values(|row: HashedTxRow| row@),
                forall|j: int| 0 <= j < i as int ==> #[trigger] mapped[j] != h@,
            decreases self.rows.len() - i,
        {
            let row = &self.rows[i];
            if row.tx_hash == h.tx_hash && row.row_hash == h.row_hash {
                proof {
                    assert(mapped[i as int] == h@);
                    assert(mapped.contains(h@));
                }
                return true;
            }
            i += 1;
        }
        proof {
            assert forall|j: int| 0 <= j < mapped.len() implies mapped[j] != h@ by {}
            assert(!mapped.contains(h@));
        }
        false
    }
}

} // verus!
