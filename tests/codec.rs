use tring::codec::{
    copy_bytes, copy_prefix, CodecError, JArrayByte, JArrayByte2D, JByteArray, JByteArray2D,
    PAYLOAD_CAPACITY, RECORD_CAPACITY,
};
use tring::signaling::IceCandidate;

fn candidates(n: usize) -> Vec<IceCandidate> {
    (0..n)
        .map(|i| IceCandidate { opaque: format!("candidate:{}", i).into_bytes() })
        .collect()
}

fn payloads(n: usize) -> Vec<Vec<u8>> {
    (0..n).map(|i| format!("candidate:{}", i).into_bytes()).collect()
}

#[test]
fn single_record_copies_payload_and_zero_fills() {
    let rec = JArrayByte::new(vec![7, 8, 9]).unwrap();
    assert_eq!(rec.len, 3);
    assert_eq!(rec.data.len(), PAYLOAD_CAPACITY);
    assert_eq!(&rec.data[..3], &[7, 8, 9]);
    assert!(rec.data[3..].iter().all(|b| *b == 0));
    assert_eq!(rec.to_vec(), vec![7, 8, 9]);
}

#[test]
fn single_record_takes_exactly_capacity() {
    let bytes: Vec<u8> = (0..PAYLOAD_CAPACITY).map(|i| (i % 251) as u8).collect();
    let rec = JArrayByte::new(bytes.clone()).unwrap();
    assert_eq!(rec.len, PAYLOAD_CAPACITY);
    assert_eq!(rec.to_vec(), bytes);
}

#[test]
fn single_record_refuses_oversized_payload() {
    let r = JArrayByte::new(vec![1; PAYLOAD_CAPACITY + 1]);
    assert_eq!(r, Err(CodecError::PayloadTooLarge(257)));
}

#[test]
fn single_record_empty() {
    let rec = JArrayByte::empty();
    assert_eq!(rec.len, 0);
    assert_eq!(rec.data, vec![0u8; 256]);
    assert!(rec.to_vec().is_empty());
}

#[test]
fn bounded_record_round_trip_within_capacity() {
    let items = payloads(3);
    let rec = JByteArray2D::from_payloads(items.clone());
    assert_eq!(rec.len, 3);
    assert_eq!(rec.buff.len(), RECORD_CAPACITY);
    assert_eq!(rec.to_payloads(), items);
    assert!(rec.buff[3..].iter().all(|slot| slot.len() == 0));
}

#[test]
fn bounded_record_round_trip_at_capacity() {
    let items = payloads(RECORD_CAPACITY);
    let rec = JByteArray2D::new(candidates(RECORD_CAPACITY));
    assert_eq!(rec.len, RECORD_CAPACITY);
    assert_eq!(rec.to_payloads(), items);
}

#[test]
fn bounded_record_round_trip_of_nothing() {
    let rec = JByteArray2D::new(Vec::new());
    assert_eq!(rec.len, 0);
    assert!(rec.to_payloads().is_empty());
}

#[test]
fn bounded_record_keeps_order_and_bytes() {
    let items = vec![vec![0u8, 255, 1], Vec::new(), vec![42; 600]];
    let rec = JByteArray2D::from_payloads(items.clone());
    assert_eq!(rec.to_payloads(), items);
}

#[test]
fn thirty_candidates_into_twenty_five_slots() {
    let rec = JByteArray2D::new(candidates(30));
    assert_eq!(rec.len, 25);
    let out = rec.to_payloads();
    assert_eq!(out, payloads(25));
    for i in 25..30 {
        let dropped = format!("candidate:{}", i).into_bytes();
        assert!(!out.contains(&dropped));
    }
}

#[test]
fn outgoing_record_truncates_thirty_candidates() {
    let rec = JArrayByte2D::new(candidates(30)).unwrap();
    assert_eq!(rec.len, 25);
    assert_eq!(rec.data.len(), RECORD_CAPACITY);
    assert_eq!(rec.to_payloads(), payloads(25));
}

#[test]
fn outgoing_record_round_trip_within_capacity() {
    let rec = JArrayByte2D::new(candidates(4)).unwrap();
    assert_eq!(rec.len, 4);
    assert_eq!(rec.to_payloads(), payloads(4));
    assert!(rec.data[4..].iter().all(|row| row.len == 0));
}

#[test]
fn outgoing_record_refuses_first_oversized_kept_payload() {
    let mut cands = candidates(5);
    cands[2].opaque = vec![1; 300];
    cands[4].opaque = vec![1; 400];
    assert_eq!(JArrayByte2D::new(cands), Err(CodecError::PayloadTooLarge(300)));
}

#[test]
fn outgoing_record_ignores_oversized_dropped_payload() {
    let mut cands = candidates(30);
    cands[27].opaque = vec![1; 300];
    let rec = JArrayByte2D::new(cands).unwrap();
    assert_eq!(rec.len, 25);
}

#[test]
fn byte_array_copies_host_data() {
    let host = vec![3u8, 1, 4, 1, 5];
    let arr = JByteArray::from_data(&host);
    assert_eq!(arr.len(), 5);
    assert_eq!(arr.to_vec_u8(), host);
    assert_eq!(JByteArray::new(vec![9, 9]).to_vec_u8(), vec![9, 9]);
    assert_eq!(JByteArray::empty().len(), 0);
}

#[test]
fn copies_are_exact() {
    assert_eq!(copy_bytes(&[1, 2, 3]), vec![1, 2, 3]);
    assert_eq!(copy_prefix(&[1, 2, 3, 4], 2), vec![1, 2]);
    assert!(copy_prefix(&[1, 2], 0).is_empty());
}
