//! The multi-row upsert statements and their parameter lists.
//!
//! Each batch is written in a single round trip: one parameterized statement
//! whose VALUES clause holds one parenthesized placeholder group per record,
//! ending in ON CONFLICT DO NOTHING so that repeated inserts of the same key
//! are not errors. The primary table binds seventeen parameters per record,
//! the ledger table two.

use vstd::prelude::*;
use vstd::string::StringExecFns;
use crate::digest::{dec_str, u64_to_dec};
use crate::json::{JsonTree, JsonModel};
use crate::record::{
    RawRecord, VotingRowData, RowDataModel, HashedTxRow, ParsingMode, spec_to_data,
    spec_content_hash,
};

verus! {

/// The text of one statement parameter placeholder: a dollar sign and the
/// parameter's one-based index.
pub open spec fn placeholder_text(k: int) -> Seq<char> {
    "$"@ + dec_str(k)
}

/// The comma-separated run of `width` placeholders starting at `start`.
pub open spec fn run_text(start: int, width: int) -> Seq<char>
    decreases width,
{
    if width <= 1 {
        placeholder_text(start)
    } else {
        run_text(start, width - 1) + ", "@ + placeholder_text(start + width - 1)
    }
}

/// One record's parenthesized placeholder group.
pub open spec fn group_text(start: int, width: int) -> Seq<char> {
    "("@ + run_text(start, width) + ")"@
}

/// The whole VALUES clause for `n` records of `width` parameters each:
/// `n` groups, comma-separated, numbered consecutively from 1.
pub open spec fn values_text(n: int, width: int) -> Seq<char>
    decreases n,
{
    if n <= 1 {
        group_text(1, width)
    } else {
        values_text(n - 1, width) + ", "@ + group_text((n - 1) * width + 1, width)
    }
}

/// The full ledger-table statement for a batch of `n` records.
pub open spec fn hashes_stmt_text(n: int) -> Seq<char> {
    "INSERT INTO saved_tx_hashes (TxHash, RowHash) VALUES "@ + values_text(n, 2)
        + " ON CONFLICT DO NOTHING"@
}

/// The full primary-table statement for a batch of `n` records.
pub open spec fn voting_stmt_text(n: int) -> Seq<char> {
    "INSERT INTO moscow_blockchain_txs (CreateVoting, StorageBallot, RegisterVoters, IssueBallot, StoragePrivateKey, StorageHistory, StorageResult, StorageDecodeBallot, StorageObserve, StorageBallotConfig, Type, Timestamp, Sid, Io, VotingId, Hash, FolderId) VALUES "@
        + values_text(n, 17) + " ON CONFLICT DO NOTHING"@
}

/// Appends one placeholder to the statement text.
fn push_placeholder(s: &mut String, k: u64)
    ensures
        final(s)@ == old(s)@ + placeholder_text(k as int),
{
    s.append("$");
    let d = u64_to_dec(k);
    s.append(d.as_str());
    proof {
        assert(s@ =~= old(s)@ + placeholder_text(k as int));
    }
}

/// Appends one record's placeholder group to the statement text.
#[verifier::loop_isolation(false)]
fn push_group(s: &mut String, start: u64, width: usize)
    requires
        1 <= width,
        start as int + width as int <= u64::MAX as int,
    ensures
        final(s)@ == old(s)@ + group_text(start as int, width as int),
{
    s.append("(");
    push_placeholder(s, start);
    let mut j: usize = 1;
    while j < width
        invariant
            1 <= j <= width,
            s@ == old(s)@ + "("@ + run_text(start as int, j as int),
        decreases width - j,
    {
        s.append(", ");
        push_placeholder(s, start + j as u64);
        proof {
            assert(s@ =~= old(s)@ + "("@ + run_text(start as int, (j + 1) as int));
        }
        j += 1;
    }
    s.append(")");
    proof {
        assert(s@ =~= old(s)@ + group_text(start as int, width as int));
    }
}

/// Builds the VALUES clause for `n` records of `width` parameters each.
#[verifier::loop_isolation(false)]
pub fn build_values_clause(n: usize, width: usize) -> (r: String)
    requires
        1 <= n,
        1 <= width,
        (n as int) * (width as int) + 1 <= u64::MAX as int,
    ensures
        r@ == values_text(n as int, width as int),
{
    let mut s = String::new();
    proof {
        assert((width as int) <= (n as int) * (width as int)) by (nonlinear_arith)
            requires
                1 <= (n as int),
                0 <= (width as int),
        ;
    }
    push_group(&mut s, 1, width);
    let mut i: usize = 1;
    while i < n
        invariant
            1 <= i <= n,
            s@ == values_text(i as int, width as int),
        decreases n - i,
    {
        proof {
            assert((i as int) * (width as int) <= (n as int) * (width as int)
                && (i as int + 1) * (width as int) <= (n as int) * (width as int)
                && (i as int + 1) * (width as int) == (i as int) * (width as int) + (width as int))
                by (nonlinear_arith)
                requires
                    1 <= (i as int),
                    (i as int) < (n as int),
                    1 <= (width as int),
            ;
        }
        s.append(", ");
        let start: u64 = (i as u64) * (width as u64) + 1;
        push_group(&mut s, start, width);
        proof {
            assert(s@ =~= values_text((i + 1) as int, width as int));
        }
        i += 1;
    }
    s
}

/// Builds the ledger-table statement for a batch of `n` records.
pub fn build_hashes_statement(n: usize) -> (r: String)
    requires
        1 <= n,
        2 * (n as int) + 1 <= u64::MAX as int,
    ensures
        r@ == hashes_stmt_text(n as int),
{
    let mut s = String::from_str("INSERT INTO saved_tx_hashes (TxHash, RowHash) VALUES ");
    let values = build_values_clause(n, 2);
    s.append(values.as_str());
    s.append(" ON CONFLICT DO NOTHING");
    proof {
        assert(s@ =~= hashes_stmt_text(n as int));
    }
    s
}

/// Builds the primary-table statement for a batch of `n` records.
pub fn build_voting_statement(n: usize) -> (r: String)
    requires
        1 <= n,
        17 * (n as int) + 1 <= u64::MAX as int,
    ensures
        r@ == voting_stmt_text(n as int),
{
    let mut s = String::from_str(
        "INSERT INTO moscow_blockchain_txs (CreateVoting, StorageBallot, RegisterVoters, IssueBallot, StoragePrivateKey, StorageHistory, StorageResult, StorageDecodeBallot, StorageObserve, StorageBallotConfig, Type, Timestamp, Sid, Io, VotingId, Hash, FolderId) VALUES ",
    );
    let values = build_values_clause(n, 17);
    s.append(values.as_str());
    s.append(" ON CONFLICT DO NOTHING");
    proof {
        assert(s@ =~= voting_stmt_text(n as int));
    }
    s
}

/// One statement parameter, as the library hands it to the caller that binds
/// and executes the statement.
pub enum ParamValue {
    Json(Option<JsonTree>),
    Text(Option<String>),
    Int8(Option<i64>),
}

/// The mathematical value of one statement parameter.
pub enum ParamModel {
    Json(Option<JsonModel>),
    Text(Option<Seq<char>>),
    Int8(Option<i64>),
}

impl View for ParamValue {
    type V = ParamModel;

    open spec fn view(&self) -> ParamModel {
        match self {
            ParamValue::Json(o) => ParamModel::Json(crate::record::opt_tree_model(*o)),
            ParamValue::Text(o) => ParamModel::Text(o.deep_view()),
            ParamValue::Int8(o) => ParamModel::Int8(*o),
        }
    }
}

/// The models of a parameter list.
pub open spec fn params_model(v: Seq<ParamValue>) -> Seq<ParamModel> {
    v.map_values(|p: ParamValue| p@)
}

/// The seventeen parameters one primary row binds, in statement order: the
/// ten payload columns, then type, timestamp, sid, io, voting id, the primary
/// key, and the partition identifier.
pub open spec fn row_params(r: RowDataModel, folder: Seq<char>) -> Seq<ParamModel> {
    seq![
        ParamModel::Json(r.create_voting),
        ParamModel::Json(r.storage_ballot),
        ParamModel::Json(r.register_voters),
        ParamModel::Json(r.issue_ballot),
        ParamModel::Json(r.storage_private_key),
        ParamModel::Json(r.storage_history),
        ParamModel::Json(r.storage_result),
        ParamModel::Json(r.storage_decode_ballot),
        ParamModel::Json(r.storage_observe),
        ParamModel::Json(r.storage_ballot_config),
        ParamModel::Text(r.tx_type),
        ParamModel::Int8(r.timestamp),
        ParamModel::Text(r.sid),
        ParamModel::Text(r.io),
        ParamModel::Text(r.voting_id),
        ParamModel::Text(Some(r.hash)),
        ParamModel::Text(Some(folder)),
    ]
}

/// The flattened parameter list of a whole batch, one record after another.
pub open spec fn batch_params(rows: Seq<RawRecord>, mode: ParsingMode, folder: Seq<char>)
    -> Seq<ParamModel>
    decreases rows.len(),
{
    if rows.len() == 0 {
        Seq::empty()
    } else {
        batch_params(rows.drop_last(), mode, folder)
            + row_params(spec_to_data(rows.last()@, mode), folder)
    }
}

/// The parameters of one normalized row.
fn row_param_vec(data: VotingRowData, folder_id: &String) -> (r: Vec<ParamValue>)
    ensures
        params_model(r@) == row_params(data@, folder_id@),
{
    let mut v: Vec<ParamValue> = Vec::new();
    v.push(ParamValue::Json(data.create_voting));
    v.push(ParamValue::Json(data.storage_ballot));
    v.push(ParamValue::Json(data.register_voters));
    v.push(ParamValue::Json(data.issue_ballot));
    v.push(ParamValue::Json(data.storage_private_key));
    v.push(ParamValue::Json(data.storage_history));
    v.push(ParamValue::Json(data.storage_result));
    v.push(ParamValue::Json(data.storage_decode_ballot));
    v.push(ParamValue::Json(data.storage_observe));
    v.push(ParamValue::Json(data.storage_ballot_config));
    v.push(ParamValue::Text(data.tx_type));
    v.push(ParamValue::Int8(data.timestamp));
    v.push(ParamValue::Text(data.sid));
    v.push(ParamValue::Text(data.io));
    v.push(ParamValue::Text(data.voting_id));
    v.push(ParamValue::Text(Some(data.hash)));
    v.push(ParamValue::Text(Some(folder_id.clone())));
    proof {
        assert(params_model(v@) =~= row_params(data@, folder_id@));
    }
    v
}

/// Builds the flattened parameter list the primary-table statement binds for
/// the records of `batch` in positions `lo` up to `hi`: seventeen parameters
/// per record, in batch order.
#[verifier::loop_isolation(false)]
pub fn voting_params_range(
    batch: &Vec<RawRecord>,
    lo: usize,
    hi: usize,
    parsing_mode: &ParsingMode,
    folder_id: &String,
) -> (r: Vec<ParamValue>)
    requires
        lo <= hi <= batch@.len(),
    ensures
        params_model(r@) == batch_params(
            batch@.subrange(lo as int, hi as int),
            *parsing_mode,
            folder_id@,
        ),
        r@.len() == 17 * (hi - lo) as int,
{
    let mut out: Vec<ParamValue> = Vec::new();
    let mut i: usize = lo;
    proof {
        assert(batch_params(
            batch@.subrange(lo as int, lo as int),
            *parsing_mode,
            folder_id@,
        ) =~= Seq::empty());
        assert(params_model(out@) =~= Seq::empty());
    }
    while i < hi
        invariant
            lo <= i <= hi,
            out@.len() == 17 * (i - lo) as int,
            params_model(out@) == batch_params(
                batch@.subrange(lo as int, i as int),
                *parsing_mode,
                folder_id@,
            ),
        decreases hi - i,
    {
        let data = batch[i].to_data(parsing_mode);
        let mut row = row_param_vec(data, folder_id);
        let ghost prev = out@;
        let ghost row_snapshot = row@;
        out.append(&mut row);
        proof {
            let sub1 = batch@.subrange(lo as int, i as int + 1);
            assert(sub1.drop_last() =~= batch@.subrange(lo as int, i as int));
            assert(sub1.last() == batch@[i as int]);
            assert(params_model(out@) =~= params_model(prev) + params_model(row_snapshot));
            assert(params_model(out@) == batch_params(sub1, *parsing_mode, folder_id@));
        }
        i += 1;
    }
    out
}

/// Builds the flattened parameter list the primary-table statement binds for
/// a whole batch.
pub fn voting_params(batch: &Vec<RawRecord>, parsing_mode: &ParsingMode, folder_id: &String)
    -> (r: Vec<ParamValue>)
    ensures
        params_model(r@) == batch_params(batch@, *parsing_mode, folder_id@),
        r@.len() == 17 * batch@.len(),
{
    let r = voting_params_range(batch, 0, batch.len(), parsing_mode, folder_id);
    proof {
        assert(batch@.subrange(0, batch@.len() as int) =~= batch@);
    }
    r
}

/// Computes the content hashes of every record of a batch, in batch order:
/// the rows the ledger-table statement binds.
#[verifier::loop_isolation(false)]
pub fn batch_hashes(batch: &Vec<RawRecord>) -> (r: Vec<HashedTxRow>)
    ensures
        r@.len() == batch@.len(),
        forall|i: int|
            0 <= i < batch@.len() ==> #[trigger] r@[i]@ == spec_content_hash(batch@[i]@),
{
    let mut out: Vec<HashedTxRow> = Vec::new();
    let mut i: usize = 0;
    while i < batch.len()
        invariant
            i <= batch.len(),
            out@.len() == i as int,
            forall|j: int|
                0 <= j < i as int ==> #[trigger] out@[j]@ == spec_content_hash(batch@[j]@),
        decreases batch.len() - i,
    {
        out.push(batch[i].compute_hash());
        i += 1;
    }
    out
}

} // verus!
