use moscow_deg_postgres_ingest::upsert::{
    is_size_class_error, str_contains, FailureStep, UpsertSession, SPLIT_FLOOR,
};

#[test]
fn substring_search_finds_and_rejects() {
    assert!(str_contains("abcdef", "cde"));
    assert!(str_contains("abcdef", ""));
    assert!(str_contains("abcdef", "abcdef"));
    assert!(!str_contains("abcdef", "abcdefg"));
    assert!(!str_contains("abcdef", "ace"));
    assert!(str_contains("aaab", "aab"));
}

#[test]
fn size_class_errors_are_recognized() {
    assert!(is_size_class_error(
        "db error: ERROR: invalid message length: parameters is not drained"
    ));
    assert!(is_size_class_error("error serializing: value too large to transmit"));
    assert!(!is_size_class_error("duplicate key value violates unique constraint"));
    assert!(!is_size_class_error("connection closed"));
}

#[test]
fn split_floor_is_one_hundred() {
    assert_eq!(SPLIT_FLOOR, 100);
}

#[test]
fn size_error_above_floor_bisects_evenly() {
    let mut session = UpsertSession::start(250);
    assert_eq!(session.next_range(), Some((0, 250)));
    assert_eq!(session.on_failure(true), FailureStep::Split);
    let first = session.next_range().unwrap();
    assert_eq!(first, (0, 125));
    session.on_success();
    let second = session.next_range().unwrap();
    assert_eq!(second, (125, 250));
    assert_eq!((first.1 - first.0) + (second.1 - second.0), 250);
    session.on_success();
    assert_eq!(session.next_range(), None);
}

#[test]
fn odd_length_halves_differ_by_at_most_one() {
    let mut session = UpsertSession::start(251);
    assert_eq!(session.on_failure(true), FailureStep::Split);
    let first = session.next_range().unwrap();
    assert_eq!(first, (0, 125));
    session.on_success();
    let second = session.next_range().unwrap();
    assert_eq!(second, (125, 251));
    assert_eq!((second.1 - second.0) - (first.1 - first.0), 1);
}

#[test]
fn size_error_at_or_below_floor_aborts_without_splitting() {
    let mut session = UpsertSession::start(100);
    assert_eq!(session.next_range(), Some((0, 100)));
    assert_eq!(session.on_failure(true), FailureStep::Abort);
    assert_eq!(session.next_range(), Some((0, 100)));
}

#[test]
fn non_size_error_aborts_whatever_the_length() {
    let mut session = UpsertSession::start(100000);
    assert_eq!(session.on_failure(false), FailureStep::Abort);
    assert_eq!(session.next_range(), Some((0, 100000)));
}

#[test]
fn repeated_size_errors_bisect_down_to_the_floor() {
    let mut session = UpsertSession::start(400);
    assert_eq!(session.on_failure(true), FailureStep::Split);
    assert_eq!(session.next_range(), Some((0, 200)));
    assert_eq!(session.on_failure(true), FailureStep::Split);
    assert_eq!(session.next_range(), Some((0, 100)));
    assert_eq!(session.on_failure(true), FailureStep::Abort);
}

#[test]
fn successful_halves_drain_in_order() {
    let mut session = UpsertSession::start(400);
    session.on_failure(true);
    let mut written: Vec<(usize, usize)> = Vec::new();
    while let Some(range) = session.next_range() {
        written.push(range);
        session.on_success();
    }
    assert_eq!(written, vec![(0, 200), (200, 400)]);
}
