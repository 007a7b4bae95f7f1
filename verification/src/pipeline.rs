//! What one full run forwards and writes.
//!
//! The scanner reads the lines of all matched files in order and screens
//! each one; the records that survive are distributed among the workers and
//! written, batch by batch, with conflict-ignoring inserts. The functions
//! here state what the destination tables hold once every forwarded record
//! has been written, and the round-trip law proves that a fresh run writes
//! each input line exactly once.

use vstd::prelude::*;
use crate::record::{RawRecord, spec_content_hash};
use crate::scan::spec_screen;

verus! {

/// The records the scanner forwards to the relay for a sequence of parsed
/// lines, in reading order.
pub open spec fn forwarded_records(
    lines: Seq<Option<RawRecord>>,
    saved: Set<(Seq<char>, Seq<char>)>,
) -> Seq<RawRecord>
    decreases lines.len(),
{
    if lines.len() == 0 {
        Seq::empty()
    } else {
        forwarded_records(lines.drop_last(), saved) + match spec_screen(lines.last(), saved) {
            Some(p) => seq![p],
            None => Seq::empty(),
        }
    }
}

/// The primary-table keys present after a set of records is written under
/// one partition identifier with conflict-ignoring inserts.
pub open spec fn primary_keys_written(recs: Seq<RawRecord>, folder: Seq<char>) -> Set<
    (Seq<char>, Seq<char>),
> {
    recs.map_values(|r: RawRecord| (r@.hash, folder)).to_set()
}

/// The ledger rows present after the same records' content hashes are
/// written with conflict-ignoring inserts.
pub open spec fn ledger_rows_written(recs: Seq<RawRecord>) -> Set<(Seq<char>, Seq<char>)> {
    recs.map_values(|r: RawRecord| spec_content_hash(r@)).to_set()
}

/// Law: against an empty ledger snapshot, every line that parses and
/// carries a payload is forwarded, in order.
pub proof fn lemma_fresh_lines_all_forwarded(lines: Seq<Option<RawRecord>>)
    requires
        forall|i: int|
            0 <= i < lines.len() ==> ((#[trigger] lines[i]) matches Some(p)
                && p@.decode_data is Some),
    ensures
        forwarded_records(lines, Set::empty()).len() == lines.len(),
        forall|i: int|
            0 <= i < lines.len() ==> #[trigger] forwarded_records(lines, Set::empty())[i]
                == lines[i]->0,
    decreases lines.len(),
{
    let fwd = forwarded_records(lines, Set::empty());
    if lines.len() > 0 {
        let head = lines.drop_last();
        assert forall|i: int|
            0 <= i < head.len() implies (#[trigger] head[i]) matches Some(p)
            && p@.decode_data is Some by {
            assert(head[i] == lines[i]);
        }
        lemma_fresh_lines_all_forwarded(head);
        let p = lines.last()->0;
        assert(!Set::<(Seq<char>, Seq<char>)>::empty().contains(spec_content_hash(p@)));
        assert(spec_screen(lines.last(), Set::empty()) == Some(p));
        assert forall|i: int| 0 <= i < lines.len() implies #[trigger] fwd[i] == lines[i]->0 by {
            if i < lines.len() - 1 {
                assert(fwd[i] == forwarded_records(head, Set::empty())[i]);
            }
        }
    }
}

/// Law: whatever the snapshot holds, every record the scanner forwards
/// carries a payload sub-object and bears a content hash that is not in the
/// snapshot — nothing already persisted, and nothing payload-less, ever
/// reaches the workers.
pub proof fn lemma_forwarded_records_are_fresh(
    lines: Seq<Option<RawRecord>>,
    saved: Set<(Seq<char>, Seq<char>)>,
)
    ensures
        forall|i: int|
            0 <= i < forwarded_records(lines, saved).len() ==> (#[trigger] forwarded_records(
                lines,
                saved,
            )[i])@.decode_data is Some && !saved.contains(
                spec_content_hash(forwarded_records(lines, saved)[i]@),
            ),
    decreases lines.len(),
{
    if lines.len() > 0 {
        let head = lines.drop_last();
        lemma_forwarded_records_are_fresh(head, saved);
        let head_fwd = forwarded_records(head, saved);
        let fwd = forwarded_records(lines, saved);
        assert forall|i: int|
            0 <= i < fwd.len() implies (#[trigger] fwd[i])@.decode_data is Some
            && !saved.contains(spec_content_hash(fwd[i]@)) by {
            if i < head_fwd.len() {
                assert(fwd[i] == head_fwd[i]);
            } else {
                assert(fwd[i] == lines.last()->0);
            }
        }
    }
}

/// Law (round trip): a run over fresh input — every line parses, carries a
/// payload, and bears a primary key no other line bears, and the ledger
/// snapshot is empty — forwards every line exactly once, and once all
/// batches are written the primary table and the ledger each hold exactly
/// one row per input line.
pub proof fn lemma_round_trip(lines: Seq<Option<RawRecord>>, folder: Seq<char>)
    requires
        forall|i: int|
            0 <= i < lines.len() ==> ((#[trigger] lines[i]) matches Some(p)
                && p@.decode_data is Some),
        forall|i: int, j: int|
            0 <= i < lines.len() && 0 <= j < lines.len() && i != j ==> (#[trigger] lines[i]->0)@.hash
                != (#[trigger] lines[j]->0)@.hash,
    ensures
        forwarded_records(lines, Set::empty()).len() == lines.len(),
        primary_keys_written(forwarded_records(lines, Set::empty()), folder).len() == lines.len(),
        ledger_rows_written(forwarded_records(lines, Set::empty())).len() == lines.len(),
{
    lemma_fresh_lines_all_forwarded(lines);
    let fwd = forwarded_records(lines, Set::empty());
    let keys = fwd.map_values(|r: RawRecord| (r@.hash, folder));
    assert forall|i: int, j: int|
        0 <= i < keys.len() && 0 <= j < keys.len() && i != j implies keys[i] != keys[j] by {
        assert(fwd[i] == lines[i]->0);
        assert(fwd[j] == lines[j]->0);
    }
    keys.unique_seq_to_set();
    let hashes = fwd.map_values(|r: RawRecord| spec_content_hash(r@));
    assert forall|i: int, j: int|
        0 <= i < hashes.len() && 0 <= j < hashes.len() && i != j implies hashes[i] != hashes[j] by {
        assert(fwd[i] == lines[i]->0);
        assert(fwd[j] == lines[j]->0);
        assert(hashes[i].0 == (lines[i]->0)@.hash);
        assert(hashes[j].0 == (lines[j]->0)@.hash);
    }
    hashes.unique_seq_to_set();
}

} // verus!
