use moscow_deg_postgres_ingest::json::JsonTree;
use moscow_deg_postgres_ingest::record::{HashedTxRow, ParsingMode, Payload, RawRecord};
use std::hash::{Hash, Hasher};

fn empty_payload() -> Payload {
    Payload {
        create_voting: None,
        storage_ballot: None,
        register_voters: None,
        issue_ballot: None,
        storage_private_key: None,
        storage_history: None,
        storage_decode_ballot: None,
        storage_result: None,
        storage_observe: None,
        storage_ballot_config: None,
    }
}

fn record(hash: &str, data: Option<&str>, payload: Option<Payload>) -> RawRecord {
    RawRecord {
        hash: hash.to_string(),
        tx_type: None,
        data: data.map(|d| d.to_string()),
        timestamp: None,
        decode_data: payload,
        sid: None,
        io: None,
        voting_id: None,
    }
}

fn std_hash_of(data: &str) -> String {
    let mut hasher = std::collections::hash_map::DefaultHasher::new();
    data.hash(&mut hasher);
    hasher.finish().to_string()
}

#[test]
fn content_hash_is_deterministic() {
    let r1 = record("k1", Some("payload text"), Some(empty_payload()));
    let r2 = record("k1", Some("payload text"), Some(empty_payload()));
    let h1: HashedTxRow = r1.compute_hash();
    let h2: HashedTxRow = r2.compute_hash();
    assert_eq!(h1.tx_hash, h2.tx_hash);
    assert_eq!(h1.row_hash, h2.row_hash);
}

#[test]
fn content_hash_differs_for_different_payload_strings() {
    let r1 = record("k1", Some("one"), Some(empty_payload()));
    let r2 = record("k1", Some("two"), Some(empty_payload()));
    assert_ne!(r1.compute_hash().row_hash, r2.compute_hash().row_hash);
}

#[test]
fn content_hash_matches_std_default_hasher() {
    let r = record("k1", Some("raw1"), Some(empty_payload()));
    assert_eq!(r.compute_hash().row_hash, std_hash_of("raw1"));
}

#[test]
fn missing_payload_string_hashes_to_sentinel() {
    let r = record("k1", None, Some(empty_payload()));
    assert_eq!(r.compute_hash().row_hash, "None");
}

#[test]
fn sample_line_normalizes_to_expected_record() {
    let line = r#"{"Hash":"h1","Type":"x","DecodeData":{"CreateVoting":{"a":1}},"Data":"raw1"}"#;
    let v: serde_json::Value = serde_json::from_str(line).unwrap();
    let create_voting = v
        .get("DecodeData")
        .and_then(|d| d.get("CreateVoting"))
        .cloned()
        .map(JsonTree::Atom);
    let raw = RawRecord {
        hash: v.get("Hash").unwrap().as_str().unwrap().to_string(),
        tx_type: v.get("Type").and_then(|t| t.as_str()).map(|t| t.to_string()),
        data: v.get("Data").and_then(|d| d.as_str()).map(|d| d.to_string()),
        timestamp: None,
        decode_data: Some(Payload {
            create_voting,
            ..empty_payload()
        }),
        sid: None,
        io: None,
        voting_id: None,
    };
    let hash = raw.compute_hash();
    assert_eq!(hash.tx_hash, "h1");
    assert_eq!(hash.row_hash, std_hash_of("raw1"));

    let row = raw.to_data(&ParsingMode::Voting2024);
    assert_eq!(row.hash, "h1");
    assert_eq!(row.tx_type.as_deref(), Some("x"));
    match &row.create_voting {
        Some(JsonTree::Atom(value)) => {
            assert_eq!(value.get("a").and_then(|a| a.as_i64()), Some(1));
        }
        other => panic!("unexpected payload shape: {:?}", other.is_some()),
    }
    assert!(row.storage_ballot.is_none());
}

#[test]
fn to_data_without_payload_has_empty_columns() {
    let raw = record("k9", Some("d"), None);
    let row = raw.to_data(&ParsingMode::Voting2024);
    assert!(row.create_voting.is_none());
    assert!(row.storage_ballot_config.is_none());
    assert_eq!(row.hash, "k9");
}
