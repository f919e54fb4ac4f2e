use paxos_replica::codec::{load_record, store_record, DecodeError};
use paxos_replica::record::{Accepted, Record};

fn record_no_vote(promised_id: u64) -> Record {
    Record { promised_id, accepted: None }
}

fn record_with_vote(promised_id: u64, id: u64, value: &[u8]) -> Record {
    Record { promised_id, accepted: Some(Accepted { id, value: value.to_vec() }) }
}

fn assert_same(a: &Record, b: &Record) {
    assert_eq!(a.promised_id, b.promised_id);
    match (&a.accepted, &b.accepted) {
        (None, None) => {}
        (Some(x), Some(y)) => {
            assert_eq!(x.id, y.id);
            assert_eq!(x.value, y.value);
        }
        _ => panic!("one record has a vote, the other has none"),
    }
}

#[test]
fn round_trip_no_vote() {
    let r = record_no_vote(7);
    let bytes = store_record(&r);
    let loaded = load_record(&bytes).unwrap().unwrap();
    assert_same(&r, &loaded);
}

#[test]
fn round_trip_with_vote() {
    let r = record_with_vote(9, 9, b"xyz");
    let bytes = store_record(&r);
    let loaded = load_record(&bytes).unwrap().unwrap();
    assert_same(&r, &loaded);
}

#[test]
fn round_trip_vote_below_promise() {
    let r = record_with_vote(12, 9, b"abc");
    let bytes = store_record(&r);
    let loaded = load_record(&bytes).unwrap().unwrap();
    assert_same(&r, &loaded);
}

#[test]
fn empty_value_distinct_from_no_vote() {
    let with_empty = record_with_vote(5, 5, b"");
    let without = record_no_vote(5);
    let bytes_empty = store_record(&with_empty);
    let bytes_none = store_record(&without);
    assert_ne!(bytes_empty, bytes_none);
    let loaded_empty = load_record(&bytes_empty).unwrap().unwrap();
    let loaded_none = load_record(&bytes_none).unwrap().unwrap();
    assert!(loaded_empty.accepted.is_some());
    assert!(loaded_empty.accepted.as_ref().unwrap().value.is_empty());
    assert!(loaded_none.accepted.is_none());
}

#[test]
fn exact_bytes_no_vote() {
    let bytes = store_record(&record_no_vote(1));
    assert_eq!(bytes, vec![1, 0, 0, 0, 0, 0, 0, 0, 0]);
}

#[test]
fn exact_bytes_with_vote() {
    let bytes = store_record(&record_with_vote(2, 2, b"hi"));
    let mut expected = vec![2, 0, 0, 0, 0, 0, 0, 0, 1];
    expected.extend_from_slice(&[2, 0, 0, 0, 0, 0, 0, 0]);
    expected.extend_from_slice(&[2, 0, 0, 0, 0, 0, 0, 0]);
    expected.extend_from_slice(b"hi");
    assert_eq!(bytes, expected);
}

#[test]
fn empty_file_is_fresh() {
    assert!(matches!(load_record(&Vec::new()), Ok(None)));
}

#[test]
fn short_file_is_truncated() {
    let bytes = vec![1, 2, 3];
    assert_eq!(load_record(&bytes).unwrap_err(), DecodeError::Truncated);
}

#[test]
fn unknown_tag_is_corrupt() {
    let mut bytes = store_record(&record_no_vote(3));
    bytes[8] = 7;
    assert_eq!(load_record(&bytes).unwrap_err(), DecodeError::Corrupt);
}

#[test]
fn trailing_bytes_after_no_vote_is_corrupt() {
    let mut bytes = store_record(&record_no_vote(3));
    bytes.push(0);
    assert_eq!(load_record(&bytes).unwrap_err(), DecodeError::Corrupt);
}

#[test]
fn cut_off_value_is_truncated() {
    let mut bytes = store_record(&record_with_vote(4, 4, b"paxos"));
    bytes.pop();
    assert_eq!(load_record(&bytes).unwrap_err(), DecodeError::Truncated);
}

#[test]
fn cut_off_header_is_truncated() {
    let bytes_full = store_record(&record_with_vote(4, 4, b"paxos"));
    let bytes = bytes_full[..20].to_vec();
    assert_eq!(load_record(&bytes).unwrap_err(), DecodeError::Truncated);
}

#[test]
fn overlong_value_is_corrupt() {
    let mut bytes = store_record(&record_with_vote(4, 4, b"paxos"));
    bytes.push(b'!');
    assert_eq!(load_record(&bytes).unwrap_err(), DecodeError::Corrupt);
}

#[test]
fn vote_above_promise_is_corrupt() {
    // promised 3 but vote tagged 4: no write of this library produces it
    let mut bytes = Vec::new();
    bytes.extend_from_slice(&3u64.to_le_bytes());
    bytes.push(1);
    bytes.extend_from_slice(&4u64.to_le_bytes());
    bytes.extend_from_slice(&0u64.to_le_bytes());
    assert_eq!(load_record(&bytes).unwrap_err(), DecodeError::Corrupt);
}
