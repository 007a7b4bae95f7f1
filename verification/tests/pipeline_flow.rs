use moscow_deg_postgres_ingest::batch::{Batcher, NUM_PG_WORKERS, PG_BATCH_SIZE};
use moscow_deg_postgres_ingest::dedup::DedupIndex;
use moscow_deg_postgres_ingest::record::{HashedTxRow, Payload, RawRecord};
use moscow_deg_postgres_ingest::scan::screen_line;

fn empty_payload() -> Payload {
    Payload {
        create_voting: None,
        storage_ballot: None,
        register_voters: None,
        issue_ballot: None,
        storage_private_key: None,
        storage_history: None,
        storage_decode_ballot: None,
        storage_result: None,
        storage_observe: None,
        storage_ballot_config: None,
    }
}

fn record(hash: &str, data: Option<&str>, with_payload: bool) -> RawRecord {
    RawRecord {
        hash: hash.to_string(),
        tx_type: None,
        data: data.map(|d| d.to_string()),
        timestamp: None,
        decode_data: if with_payload { Some(empty_payload()) } else { None },
        sid: None,
        io: None,
        voting_id: None,
    }
}

#[test]
fn defaults_match_the_run_parameters() {
    assert_eq!(PG_BATCH_SIZE, 1250);
    assert_eq!(NUM_PG_WORKERS, 2);
}

#[test]
fn dedup_index_contains_exactly_its_rows() {
    let index = DedupIndex::from_rows(vec![
        HashedTxRow { tx_hash: "a".to_string(), row_hash: "1".to_string() },
        HashedTxRow { tx_hash: "b".to_string(), row_hash: "2".to_string() },
    ]);
    assert!(index.contains(&HashedTxRow { tx_hash: "a".to_string(), row_hash: "1".to_string() }));
    assert!(index.contains(&HashedTxRow { tx_hash: "b".to_string(), row_hash: "2".to_string() }));
    assert!(!index.contains(&HashedTxRow { tx_hash: "a".to_string(), row_hash: "2".to_string() }));
    assert!(!index.contains(&HashedTxRow { tx_hash: "c".to_string(), row_hash: "1".to_string() }));
}

#[test]
fn malformed_line_is_dropped() {
    let index = DedupIndex::from_rows(Vec::new());
    assert!(screen_line(None, &index).is_none());
}

#[test]
fn line_without_payload_forwards_nothing() {
    let index = DedupIndex::from_rows(Vec::new());
    let forwarded = screen_line(Some(record("h1", Some("d"), false)), &index);
    assert!(forwarded.is_none());
}

#[test]
fn fresh_line_with_payload_is_forwarded() {
    let index = DedupIndex::from_rows(Vec::new());
    let forwarded = screen_line(Some(record("h1", Some("d"), true)), &index);
    assert_eq!(forwarded.map(|r| r.hash), Some("h1".to_string()));
}

#[test]
fn already_saved_line_is_skipped() {
    let saved = record("h1", Some("d"), true).compute_hash();
    let index = DedupIndex::from_rows(vec![saved]);
    let forwarded = screen_line(Some(record("h1", Some("d"), true)), &index);
    assert!(forwarded.is_none());
    let other = screen_line(Some(record("h1", Some("other"), true)), &index);
    assert_eq!(other.map(|r| r.hash), Some("h1".to_string()));
}

#[test]
fn batcher_flushes_exactly_at_the_configured_size() {
    let mut batcher = Batcher::new(3);
    assert!(batcher.push(record("a", None, true)).is_none());
    assert!(batcher.push(record("b", None, true)).is_none());
    let flushed = batcher.push(record("c", None, true)).expect("third push flushes");
    assert_eq!(flushed.len(), 3);
    assert_eq!(flushed[0].hash, "a");
    assert_eq!(flushed[2].hash, "c");
    assert!(batcher.push(record("d", None, true)).is_none());
    let rest = batcher.finish();
    assert_eq!(rest.len(), 1);
    assert_eq!(rest[0].hash, "d");
}

#[test]
fn round_trip_fresh_run_writes_every_line_once() {
    let file_one = vec![
        record("h1", Some("d1"), true),
        record("h2", Some("d2"), true),
        record("h3", Some("d3"), true),
    ];
    let file_two = vec![record("h4", Some("d4"), true), record("h5", Some("d5"), true)];
    let n = file_one.len() + file_two.len();
    let index = DedupIndex::from_rows(Vec::new());
    let folder = "/data/in".to_string();

    let mut primary: std::collections::HashSet<(String, String)> = std::collections::HashSet::new();
    let mut ledger: std::collections::HashSet<(String, String)> = std::collections::HashSet::new();
    let mut forwarded_count = 0;
    for rec in file_one.into_iter().chain(file_two.into_iter()) {
        let forwarded = screen_line(Some(rec), &index).expect("fresh records are forwarded");
        forwarded_count += 1;
        let hash = forwarded.compute_hash();
        primary.insert((forwarded.hash.clone(), folder.clone()));
        ledger.insert((hash.tx_hash, hash.row_hash));
    }
    assert_eq!(forwarded_count, n);
    assert_eq!(primary.len(), n);
    assert_eq!(ledger.len(), n);
}

#[test]
fn four_records_two_workers_yield_two_full_batches() {
    let records = vec![
        record("h1", Some("d1"), true),
        record("h2", Some("d2"), true),
        record("h3", Some("d3"), true),
        record("h4", Some("d4"), true),
    ];
    let index = DedupIndex::from_rows(Vec::new());
    let mut workers = vec![Batcher::new(2), Batcher::new(2)];
    let mut flushed_batches: Vec<Vec<RawRecord>> = Vec::new();
    for (i, rec) in records.into_iter().enumerate() {
        let forwarded = screen_line(Some(rec), &index).expect("fresh records are forwarded");
        if let Some(full) = workers[i % 2].push(forwarded) {
            flushed_batches.push(full);
        }
    }
    for worker in workers {
        let rest = worker.finish();
        assert!(rest.is_empty());
    }
    assert_eq!(flushed_batches.len(), 2);
    let mut written: Vec<String> = flushed_batches
        .into_iter()
        .flatten()
        .map(|r| r.hash)
        .collect();
    written.sort();
    assert_eq!(written, vec!["h1", "h2", "h3", "h4"]);
}
