//! Canonical transaction records.
//!
//! One parsed input line yields a `RawRecord`, whatever input schema it came
//! from. A record that carries a payload is normalized into a
//! `VotingRowData` — the exact shape of one row of the primary table — and
//! hashed into a `HashedTxRow`, the pair under which the ledger remembers
//! that the record was persisted. The row hash is a function of the primary
//! key and the raw payload string exactly as ingested, never of any
//! re-serialized form.

use vstd::prelude::*;
use crate::json::{JsonTree, JsonModel, tree_model, cap_model, CapitalizeKeys};
use crate::digest::{spec_row_hash, row_hash_string};

verus! {

/// Which of the two input schemas a run ingests.
#[derive(Debug, PartialEq, Eq, Structural, Clone, Copy)]
pub enum ParsingMode {
    Voting2024,
    Voting2023,
}

/// The payload-carrying sub-object of one record: up to ten opaque JSON
/// payloads.
pub struct Payload {
    pub create_voting: Option<JsonTree>,
    pub storage_ballot: Option<JsonTree>,
    pub register_voters: Option<JsonTree>,
    pub issue_ballot: Option<JsonTree>,
    pub storage_private_key: Option<JsonTree>,
    pub storage_history: Option<JsonTree>,
    pub storage_decode_ballot: Option<JsonTree>,
    pub storage_result: Option<JsonTree>,
    pub storage_observe: Option<JsonTree>,
    pub storage_ballot_config: Option<JsonTree>,
}

/// The mathematical value of a `Payload`.
pub struct PayloadModel {
    pub create_voting: Option<JsonModel>,
    pub storage_ballot: Option<JsonModel>,
    pub register_voters: Option<JsonModel>,
    pub issue_ballot: Option<JsonModel>,
    pub storage_private_key: Option<JsonModel>,
    pub storage_history: Option<JsonModel>,
    pub storage_decode_ballot: Option<JsonModel>,
    pub storage_result: Option<JsonModel>,
    pub storage_observe: Option<JsonModel>,
    pub storage_ballot_config: Option<JsonModel>,
}

/// The model of an optional payload tree.
pub open spec fn opt_tree_model(o: Option<JsonTree>) -> Option<JsonModel> {
    match o {
        Some(t) => Some(tree_model(t)),
        None => None,
    }
}

impl View for Payload {
    type V = PayloadModel;

    open spec fn view(&self) -> PayloadModel {
        PayloadModel {
            create_voting: opt_tree_model(self.create_voting),
            storage_ballot: opt_tree_model(self.storage_ballot),
            register_voters: opt_tree_model(self.register_voters),
            issue_ballot: opt_tree_model(self.issue_ballot),
            storage_private_key: opt_tree_model(self.storage_private_key),
            storage_history: opt_tree_model(self.storage_history),
            storage_decode_ballot: opt_tree_model(self.storage_decode_ballot),
            storage_result: opt_tree_model(self.storage_result),
            storage_observe: opt_tree_model(self.storage_observe),
            storage_ballot_config: opt_tree_model(self.storage_ballot_config),
        }
    }
}

/// One parsed input line, reconciled from either input schema but not yet
/// normalized: the payload sub-object may still be absent, and the raw
/// payload string is retained for hashing.
pub struct RawRecord {
    pub hash: String,
    pub tx_type: Option<String>,
    pub data: Option<String>,
    pub timestamp: Option<i64>,
    pub decode_data: Option<Payload>,
    pub sid: Option<String>,
    pub io: Option<String>,
    pub voting_id: Option<String>,
}

/// The mathematical value of a `RawRecord`.
pub struct RawModel {
    pub hash: Seq<char>,
    pub tx_type: Option<Seq<char>>,
    pub data: Option<Seq<char>>,
    pub timestamp: Option<i64>,
    pub decode_data: Option<PayloadModel>,
    pub sid: Option<Seq<char>>,
    pub io: Option<Seq<char>>,
    pub voting_id: Option<Seq<char>>,
}

impl View for RawRecord {
    type V = RawModel;

    open spec fn view(&self) -> RawModel {
        RawModel {
            hash: self.hash@,
            tx_type: self.tx_type.deep_view(),
            data: self.data.deep_view(),
            timestamp: self.timestamp,
            decode_data: match self.decode_data {
                Some(p) => Some(p@),
                None => None,
            },
            sid: self.sid.deep_view(),
            io: self.io.deep_view(),
            voting_id: self.voting_id.deep_view(),
        }
    }
}

/// One row of the primary table, ready to be bound as statement parameters.
pub struct VotingRowData {
    pub create_voting: Option<JsonTree>,
    pub storage_ballot: Option<JsonTree>,
    pub register_voters: Option<JsonTree>,
    pub issue_ballot: Option<JsonTree>,
    pub storage_private_key: Option<JsonTree>,
    pub storage_history: Option<JsonTree>,
    pub storage_decode_ballot: Option<JsonTree>,
    pub storage_result: Option<JsonTree>,
    pub storage_observe: Option<JsonTree>,
    pub storage_ballot_config: Option<JsonTree>,
    pub hash: String,
    pub tx_type: Option<String>,
    pub timestamp: Option<i64>,
    pub sid: Option<String>,
    pub io: Option<String>,
    pub voting_id: Option<String>,
}

/// The mathematical value of a `VotingRowData`.
pub struct RowDataModel {
    pub create_voting: Option<JsonModel>,
    pub storage_ballot: Option<JsonModel>,
    pub register_voters: Option<JsonModel>,
    pub issue_ballot: Option<JsonModel>,
    pub storage_private_key: Option<JsonModel>,
    pub storage_history: Option<JsonModel>,
    pub storage_decode_ballot: Option<JsonModel>,
    pub storage_result: Option<JsonModel>,
    pub storage_observe: Option<JsonModel>,
    pub storage_ballot_config: Option<JsonModel>,
    pub hash: Seq<char>,
    pub tx_type: Option<Seq<char>>,
    pub timestamp: Option<i64>,
    pub sid: Option<Seq<char>>,
    pub io: Option<Seq<char>>,
    pub voting_id: Option<Seq<char>>,
}

impl View for VotingRowData {
    type V = RowDataModel;

    open spec fn view(&self) -> RowDataModel {
        RowDataModel {
            create_voting: opt_tree_model(self.create_voting),
            storage_ballot: opt_tree_model(self.storage_ballot),
            register_voters: opt_tree_model(self.register_voters),
            issue_ballot: opt_tree_model(self.issue_ballot),
            storage_private_key: opt_tree_model(self.storage_private_key),
            storage_history: opt_tree_model(self.storage_history),
            storage_decode_ballot: opt_tree_model(self.storage_decode_ballot),
            storage_result: opt_tree_model(self.storage_result),
            storage_observe: opt_tree_model(self.storage_observe),
            storage_ballot_config: opt_tree_model(self.storage_ballot_config),
            hash: self.hash@,
            tx_type: self.tx_type.deep_view(),
            timestamp: self.timestamp,
            sid: self.sid.deep_view(),
            io: self.io.deep_view(),
            voting_id: self.voting_id.deep_view(),
        }
    }
}

/// A persisted content hash: the record's primary key together with the
/// deterministic digest of its raw payload string.
#[derive(Debug)]
pub struct HashedTxRow {
    pub tx_hash: String,
    pub row_hash: String,
}

impl View for HashedTxRow {
    type V = (Seq<char>, Seq<char>);

    open spec fn view(&self) -> (Seq<char>, Seq<char>) {
        (self.tx_hash@, self.row_hash@)
    }
}

/// The content hash of a record: its primary key paired with the row hash of
/// its raw payload string.
pub open spec fn spec_content_hash(raw: RawModel) -> (Seq<char>, Seq<char>) {
    (raw.hash, spec_row_hash(raw.data))
}

/// Law: the content hash is deterministic. Two records with the same primary
/// key and the same raw payload string hash to the same pair.
pub proof fn lemma_content_hash_deterministic(r1: RawModel, r2: RawModel)
    requires
        r1.hash == r2.hash,
        r1.data == r2.data,
    ensures
        spec_content_hash(r1) == spec_content_hash(r2),
{
}

/// A payload model with every field absent.
pub open spec fn empty_payload_model() -> PayloadModel {
    PayloadModel {
        create_voting: None,
        storage_ballot: None,
        register_voters: None,
        issue_ballot: None,
        storage_private_key: None,
        storage_history: None,
        storage_decode_ballot: None,
        storage_result: None,
        storage_observe: None,
        storage_ballot_config: None,
    }
}

/// An optional payload model with every object key capitalized.
pub open spec fn opt_cap_model(o: Option<JsonModel>) -> Option<JsonModel> {
    match o {
        Some(m) => Some(cap_model(m)),
        None => None,
    }
}

/// How one payload field is carried into the primary row: the newer schema
/// keeps it as it is, the older schema capitalizes its object keys.
pub open spec fn mode_payload(mode: ParsingMode, o: Option<JsonModel>) -> Option<JsonModel> {
    match mode {
        ParsingMode::Voting2024 => o,
        ParsingMode::Voting2023 => opt_cap_model(o),
    }
}

/// The primary row a raw record normalizes to under a given schema mode. A
/// record without a payload sub-object yields a row whose payload columns are
/// all absent.
pub open spec fn spec_to_data(raw: RawModel, mode: ParsingMode) -> RowDataModel {
    let p = match raw.decode_data {
        Some(p) => p,
        None => empty_payload_model(),
    };
    RowDataModel {
        create_voting: mode_payload(mode, p.create_voting),
        storage_ballot: mode_payload(mode, p.storage_ballot),
        register_voters: mode_payload(mode, p.register_voters),
        issue_ballot: mode_payload(mode, p.issue_ballot),
        storage_private_key: mode_payload(mode, p.storage_private_key),
        storage_history: mode_payload(mode, p.storage_history),
        storage_decode_ballot: mode_payload(mode, p.storage_decode_ballot),
        storage_result: mode_payload(mode, p.storage_result),
        storage_observe: mode_payload(mode, p.storage_observe),
        storage_ballot_config: mode_payload(mode, p.storage_ballot_config),
        hash: raw.hash,
        tx_type: raw.tx_type,
        timestamp: raw.timestamp,
        sid: raw.sid,
        io: raw.io,
        voting_id: raw.voting_id,
    }
}

/// Clones an optional string.
fn opt_string_clone(o: &Option<String>) -> (r: Option<String>)
    ensures
        r == *o,
{
    match o {
        Some(s) => Some(s.clone()),
        None => None,
    }
}

/// Carries one optional payload field into the primary row under the given
/// schema mode.
fn mode_payload_field(mode: &ParsingMode, o: &Option<JsonTree>) -> (r: Option<JsonTree>)
    ensures
        opt_tree_model(r) == mode_payload(*mode, opt_tree_model(*o)),
{
    match mode {
        ParsingMode::Voting2024 => match o {
            Some(t) => Some(t.deep_clone()),
            None => None,
        },
        ParsingMode::Voting2023 => o.capitalize_keys(),
    }
}

impl RawRecord {
    /// Normalizes this record into one row of the primary table.
    pub fn to_data(&self, parsing_mode: &ParsingMode) -> (r: VotingRowData)
        ensures
            r@ == spec_to_data(self@, *parsing_mode),
    {
        let (cv, sb, rv, ib, spk, sh, sdb, sr, so, sbc) = match &self.decode_data {
            Some(p) => (
                mode_payload_field(parsing_mode, &p.create_voting),
                mode_payload_field(parsing_mode, &p.storage_ballot),
                mode_payload_field(parsing_mode, &p.register_voters),
                mode_payload_field(parsing_mode, &p.issue_ballot),
                mode_payload_field(parsing_mode, &p.storage_private_key),
                mode_payload_field(parsing_mode, &p.storage_history),
                mode_payload_field(parsing_mode, &p.storage_decode_ballot),
                mode_payload_field(parsing_mode, &p.storage_result),
                mode_payload_field(parsing_mode, &p.storage_observe),
                mode_payload_field(parsing_mode, &p.storage_ballot_config),
            ),
            None => (None, None, None, None, None, None, None, None, None, None),
        };
        VotingRowData {
            create_voting: cv,
            storage_ballot: sb,
            register_voters: rv,
            issue_ballot: ib,
            storage_private_key: spk,
            storage_history: sh,
            storage_decode_ballot: sdb,
            storage_result: sr,
            storage_observe: so,
            storage_ballot_config: sbc,
            hash: self.hash.clone(),
            tx_type: opt_string_clone(&self.tx_type),
            timestamp: self.timestamp,
            sid: opt_string_clone(&self.sid),
            io: opt_string_clone(&self.io),
            voting_id: opt_string_clone(&self.voting_id),
        }
    }

    /// Computes this record's content hash: the primary key paired with the
    /// deterministic digest of the raw payload string.
    pub fn compute_hash(&self) -> (r: HashedTxRow)
        ensures
            r@ == spec_content_hash(self@),
    {
        HashedTxRow {
            tx_hash: self.hash.clone(),
            row_hash: row_hash_string(&self.data),
        }
    }
}

} // verus!
