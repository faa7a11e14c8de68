use hank_sync::transfer::{Transfer, TransferError, CHUNK_SIZE};

#[test]
fn requests_are_capped_at_one_chunk() {
    let t = Transfer::new(200_000);
    assert_eq!(t.next_request(), CHUNK_SIZE);
    let small = Transfer::new(12);
    assert_eq!(small.next_request(), 12);
}

#[test]
fn full_transfer_counts_every_byte() {
    let content = b"hello world!";
    let mut t = Transfer::new(content.len() as u64);
    assert_eq!(t.record(&content[..5]), Ok(()));
    assert_eq!(t.next_request(), 7);
    assert_eq!(t.record(&content[5..]), Ok(()));
    assert!(t.is_finished());
    assert_eq!(t.moved(), 12);
    assert_eq!(t.next_request(), 0);
}

#[test]
fn short_sender_reports_bytes_received_not_declared() {
    let mut t = Transfer::new(100);
    t.record(&[1u8; 30]).unwrap();
    t.record(&[2u8; 10]).unwrap();
    assert!(!t.is_finished());
    t.record(&[]).unwrap();
    assert!(t.is_finished());
    assert_eq!(t.moved(), 40);
    assert_eq!(t.expected(), 100);
}

#[test]
fn overrun_and_data_after_close_are_refused() {
    let mut t = Transfer::new(4);
    assert_eq!(t.record(&[0u8; 5]), Err(TransferError::Overrun));
    assert_eq!(t.moved(), 0);
    t.record(&[]).unwrap();
    assert_eq!(t.record(&[0u8; 1]), Err(TransferError::Closed));
}

#[test]
fn zero_length_transfer_is_finished_at_once() {
    let t = Transfer::new(0);
    assert!(t.is_finished());
    assert_eq!(t.next_request(), 0);
}

#[test]
fn round_trip_in_different_chunks() {
    let content: Vec<u8> = (0..150_000u32).map(|i| (i % 253) as u8).collect();
    let mut put = Transfer::new(content.len() as u64);
    let mut stored = Vec::new();
    let mut at = 0;
    while !put.is_finished() {
        let n = put.next_request().min(1000);
        put.record(&content[at..at + n]).unwrap();
        stored.extend_from_slice(&content[at..at + n]);
        at += n;
    }
    assert_eq!(put.moved(), content.len() as u64);
    let mut get = Transfer::new(stored.len() as u64);
    let mut received = Vec::new();
    let mut at = 0;
    while !get.is_finished() {
        let n = get.next_request();
        get.record(&stored[at..at + n]).unwrap();
        received.extend_from_slice(&stored[at..at + n]);
        at += n;
    }
    assert_eq!(received, content);
}
