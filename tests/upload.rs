use trow::error::StorageDriverError;
use trow::upload::{check_chunk_end, check_chunk_start, store_blob_chunk, ContentInfo};

fn chunk(start: u64, end: u64, length: u64) -> Option<ContentInfo> {
    Some(ContentInfo {
        length,
        range: (start, end),
    })
}

#[test]
fn first_chunk_on_empty_destination() {
    let mut sink = Vec::new();
    let data = vec![7u8; 100];
    assert_eq!(store_blob_chunk(&mut sink, chunk(0, 99, 100), &data), Ok(100));
    assert_eq!(sink, data);
}

#[test]
fn chunk_after_duplicate_retransmit_is_refused() {
    let mut sink = Vec::new();
    let first = vec![1u8; 100];
    assert_eq!(store_blob_chunk(&mut sink, chunk(0, 99, 100), &first), Ok(100));
    // the retransmitted first chunk reached the destination unconstrained
    assert_eq!(store_blob_chunk(&mut sink, None, &first), Ok(200));
    let second = vec![2u8; 50];
    assert_eq!(
        store_blob_chunk(&mut sink, chunk(100, 149, 50), &second),
        Err(StorageDriverError::InvalidContentRange)
    );
    assert_eq!(sink.len(), 200);
}

#[test]
fn out_of_order_chunk_leaves_destination_unchanged() {
    let mut sink = vec![0u8; 10];
    assert_eq!(
        store_blob_chunk(&mut sink, chunk(5, 9, 5), &[9u8; 5]),
        Err(StorageDriverError::InvalidContentRange)
    );
    assert_eq!(sink, vec![0u8; 10]);
}

#[test]
fn sequential_chunks_build_the_blob() {
    let mut sink = Vec::new();
    assert_eq!(store_blob_chunk(&mut sink, chunk(0, 2, 3), &[1, 2, 3]), Ok(3));
    assert_eq!(store_blob_chunk(&mut sink, chunk(3, 4, 2), &[4, 5]), Ok(5));
    assert_eq!(sink, vec![1, 2, 3, 4, 5]);
}

#[test]
fn unconstrained_writes_append_to_one_stream() {
    let mut sink = vec![1u8];
    assert_eq!(store_blob_chunk(&mut sink, None, &[2, 3]), Ok(3));
    assert_eq!(store_blob_chunk(&mut sink, None, &[4]), Ok(4));
    assert_eq!(sink, vec![1, 2, 3, 4]);
}

#[test]
fn chunk_with_wrong_end_is_refused_after_write() {
    let mut sink = Vec::new();
    assert_eq!(
        store_blob_chunk(&mut sink, chunk(0, 5, 3), &[1, 2, 3]),
        Err(StorageDriverError::InvalidContentRange)
    );
    assert_eq!(sink.len(), 3);
}

#[test]
fn chunk_with_wrong_length_is_refused() {
    let mut sink = Vec::new();
    assert_eq!(
        store_blob_chunk(&mut sink, chunk(0, 2, 4), &[1, 2, 3]),
        Err(StorageDriverError::InvalidContentRange)
    );
}

#[test]
fn range_checks_on_their_own() {
    assert_eq!(check_chunk_start(0, &None), Ok(()));
    assert_eq!(check_chunk_start(4, &chunk(4, 9, 6)), Ok(()));
    assert_eq!(
        check_chunk_start(3, &chunk(4, 9, 6)),
        Err(StorageDriverError::InvalidContentRange)
    );
    assert_eq!(check_chunk_end(&chunk(4, 9, 6), 6, 10), Ok(10));
    assert_eq!(
        check_chunk_end(&chunk(4, u64::MAX, 6), 6, 10),
        Err(StorageDriverError::InvalidContentRange)
    );
    assert_eq!(check_chunk_end(&None, 17, 42), Ok(42));
}
