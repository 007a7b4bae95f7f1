//! The scanner's per-line decision.
//!
//! The scanner reads every line of every matched file in order. Each line is
//! parsed outside the library; the decision of what to do with the parse
//! result is made here: a malformed line is dropped, a record without a
//! payload sub-object is dropped, a record whose content hash is already in
//! the ledger snapshot is dropped, and everything else is forwarded to the
//! relay.

use vstd::prelude::*;
use crate::record::{RawRecord, RawModel, spec_content_hash, lemma_content_hash_deterministic};
use crate::dedup::DedupIndex;

verus! {

/// The scanner's decision for one line: the record to forward, if any.
pub open spec fn spec_screen(
    parsed: Option<RawRecord>,
    saved: Set<(Seq<char>, Seq<char>)>,
) -> Option<RawRecord> {
    match parsed {
        Some(p) => if p@.decode_data is Some && !saved.contains(spec_content_hash(p@)) {
            Some(p)
        } else {
            None
        },
        None => None,
    }
}

/// Screens one parsed line against the ledger snapshot: forwards exactly the
/// records that carry a payload and were not already persisted.
pub fn screen_line(parsed: Option<RawRecord>, index: &DedupIndex) -> (r: Option<RawRecord>)
    ensures
        r == spec_screen(parsed, index@),
{
    match parsed {
        Some(p) => {
            if p.decode_data.is_some() {
                let h = p.compute_hash();
                if index.contains(&h) {
                    None
                } else {
                    Some(p)
                }
            } else {
                None
            }
        },
        None => None,
    }
}

/// Law: when a record with the same primary key and the same raw payload
/// string is already in the ledger snapshot, re-ingesting the identical line
/// forwards nothing.
pub proof fn lemma_reingest_is_skipped(
    prior: RawModel,
    p: RawRecord,
    saved: Set<(Seq<char>, Seq<char>)>,
)
    requires
        saved.contains(spec_content_hash(prior)),
        prior.hash == p@.hash,
        prior.data == p@.data,
    ensures
        spec_screen(Some(p), saved) is None,
{
    lemma_content_hash_deterministic(prior, p@);
}

/// Law: a line without a payload sub-object forwards nothing, whatever the
/// snapshot holds.
pub proof fn lemma_payloadless_is_dropped(p: RawRecord, saved: Set<(Seq<char>, Seq<char>)>)
    requires
        p@.decode_data is None,
    ensures
        spec_screen(Some(p), saved) is None,
{
}

} // verus!
