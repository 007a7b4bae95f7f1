use moscow_deg_postgres_ingest::json::{capitalize, CapitalizeKeys, JsonTree};
use moscow_deg_postgres_ingest::record::{ParsingMode, Payload, RawRecord};

#[test]
fn capitalize_uppercases_only_the_first_character() {
    assert_eq!(capitalize("createVoting"), "CreateVoting");
    assert_eq!(capitalize("x"), "X");
    assert_eq!(capitalize("Already"), "Already");
    assert_eq!(capitalize(""), "");
    assert_eq!(capitalize("шар"), "Шар");
}

fn atom(n: i64) -> JsonTree {
    JsonTree::Atom(serde_json::Value::from(n))
}

#[test]
fn capitalize_keys_rewrites_keys_at_every_depth() {
    let tree = JsonTree::Object(vec![
        (
            "createVoting".to_string(),
            JsonTree::Object(vec![("a".to_string(), atom(1))]),
        ),
        (
            "arr".to_string(),
            JsonTree::Array(vec![JsonTree::Object(vec![("x".to_string(), atom(2))])]),
        ),
    ]);
    let capped = tree.capitalize_keys();
    match capped {
        JsonTree::Object(kvs) => {
            assert_eq!(kvs.len(), 2);
            assert_eq!(kvs[0].0, "CreateVoting");
            match &kvs[0].1 {
                JsonTree::Object(inner) => {
                    assert_eq!(inner.len(), 1);
                    assert_eq!(inner[0].0, "A");
                    match &inner[0].1 {
                        JsonTree::Atom(v) => assert_eq!(v.as_i64(), Some(1)),
                        _ => panic!("expected atom"),
                    }
                }
                _ => panic!("expected object"),
            }
            assert_eq!(kvs[1].0, "Arr");
            match &kvs[1].1 {
                JsonTree::Array(items) => {
                    assert_eq!(items.len(), 1);
                    match &items[0] {
                        JsonTree::Object(inner) => assert_eq!(inner[0].0, "X"),
                        _ => panic!("expected object in array"),
                    }
                }
                _ => panic!("expected array"),
            }
        }
        _ => panic!("expected object"),
    }
}

#[test]
fn capitalize_keys_leaves_atoms_untouched() {
    let tree = atom(42);
    match tree.capitalize_keys() {
        JsonTree::Atom(v) => assert_eq!(v.as_i64(), Some(42)),
        _ => panic!("expected atom"),
    }
}

#[test]
fn older_schema_mode_capitalizes_payload_keys_in_to_data() {
    let raw = RawRecord {
        hash: "h".to_string(),
        tx_type: None,
        data: None,
        timestamp: None,
        decode_data: Some(Payload {
            create_voting: Some(JsonTree::Object(vec![("options".to_string(), atom(3))])),
            storage_ballot: None,
            register_voters: None,
            issue_ballot: None,
            storage_private_key: None,
            storage_history: None,
            storage_decode_ballot: None,
            storage_result: None,
            storage_observe: None,
            storage_ballot_config: None,
        }),
        sid: None,
        io: None,
        voting_id: None,
    };
    let row = raw.to_data(&ParsingMode::Voting2023);
    match &row.create_voting {
        Some(JsonTree::Object(kvs)) => assert_eq!(kvs[0].0, "Options"),
        _ => panic!("expected object payload"),
    }
}
