use vstd::prelude::*;

use crate::error::StorageDriverError;

verus! {

/// Declared position of one chunk of a chunked upload: its length and the
/// inclusive byte range it claims to occupy in the finished blob.
#[derive(Debug, Clone, Copy, PartialEq, Eq)]
pub struct ContentInfo {
    pub length: u64,
    pub range: (u64, u64),
}

/// The chunk may be written to a destination that already holds `len` bytes:
/// unconstrained writes always may, chunked ones only at their declared start.
pub open spec fn chunk_starts_at(info: Option<ContentInfo>, len: int) -> bool {
    match info {
        None => true,
        Some(i) => i.range.0 == len,
    }
}

/// After `copied` bytes were written and the destination holds `total`, the
/// chunk ended where it said it would and had the length it declared.
pub open spec fn chunk_ends_at(info: Option<ContentInfo>, copied: int, total: int) -> bool {
    match info {
        None => true,
        Some(i) => i.range.1 + 1 == total && i.length == copied,
    }
}

/// The destination's contents after a chunk was offered to it.
pub open spec fn stream_after_chunk(
    stream: Seq<u8>,
    info: Option<ContentInfo>,
    data: Seq<u8>,
) -> Seq<u8> {
    if chunk_starts_at(info, stream.len() as int) {
        stream + data
    } else {
        stream
    }
}

/// What writing a chunk reports: the destination's new length, or a range error.
pub open spec fn chunk_outcome(
    stream: Seq<u8>,
    info: Option<ContentInfo>,
    data: Seq<u8>,
) -> Result<u64, StorageDriverError> {
    let total = stream.len() + data.len();
    let total = total as int;
    if chunk_starts_at(info, stream.len() as int) && chunk_ends_at(info, data.len() as int, total) {
        Ok(total as u64)
    } else {
        Err(StorageDriverError::InvalidContentRange)
    }
}

/// Checks, before anything is written, that a chunk starts where the
/// destination currently ends.
pub fn check_chunk_start(current: u64, info: &Option<ContentInfo>) -> (r: Result<
    (),
    StorageDriverError,
>)
    ensures
        r is Ok <==> chunk_starts_at(*info, current as int),
        r is Err ==> r == Err::<(), StorageDriverError>(StorageDriverError::InvalidContentRange),
{
    match info {
        Some(i) => {
            if i.range.0 != current {
                return Err(StorageDriverError::InvalidContentRange);
            }
            Ok(())
        },
        None => Ok(()),
    }
}

/// Checks, after the write, that the chunk ended where it declared and that
/// `copied`, the number of bytes actually written, is its declared length.
/// On success the destination's new length `total` is handed back.
pub fn check_chunk_end(info: &Option<ContentInfo>, copied: u64, total: u64) -> (r: Result<
    u64,
    StorageDriverError,
>)
    ensures
        r is Ok <==> chunk_ends_at(*info, copied as int, total as int),
        r is Ok ==> r == Ok::<u64, StorageDriverError>(total),
        r is Err ==> r == Err::<u64, StorageDriverError>(StorageDriverError::InvalidContentRange),
{
    match info {
        Some(i) => {
            if i.range.1 == u64::MAX || i.range.1 + 1 != total {
                return Err(StorageDriverError::InvalidContentRange);
            }
            if i.length != copied {
                return Err(StorageDriverError::InvalidContentRange);
            }
            Ok(total)
        },
        None => Ok(total),
    }
}

/// Writes one chunk of a blob upload to `sink`, the destination resolved for
/// the upload session, and returns the destination's new length.
///
/// Without `data_info` the write is unconstrained. With it, a chunk that does
/// not start at the destination's current length is refused and nothing is
/// written; a chunk whose end or length does not match its declaration is
/// refused after it was written.
pub fn store_blob_chunk(sink: &mut Vec<u8>, data_info: Option<ContentInfo>, data: &[u8]) -> (r:
    Result<u64, StorageDriverError>)
    requires
        old(sink)@.len() + data@.len() <= u64::MAX,
    ensures
        final(sink)@ == stream_after_chunk(old(sink)@, data_info, data@),
        r == chunk_outcome(old(sink)@, data_info, data@),
{
    let start = sink.len() as u64;
    match check_chunk_start(start, &data_info) {
        Err(e) => {
            return Err(e);
        },
        Ok(()) => {},
    }
    let ghost before = sink@;
    let mut i: usize = 0;
    while i < data.len()
        invariant
            0 <= i <= data@.len(),
            sink@ == before + data@.subrange(0, i as int),
        decreases data@.len() - i,
    {
        sink.push(data[i]);
        i = i + 1;
        assert(sink@ =~= before + data@.subrange(0, i as int));
    }
    assert(data@.subrange(0, data@.len() as int) =~= data@);
    let copied = data.len() as u64;
    let total = sink.len() as u64;
    check_chunk_end(&data_info, copied, total)
}

/// A chunk that does not start where the destination ends is refused with a
/// range error and leaves the destination as it was, whatever came before.
pub proof fn lemma_out_of_order_chunk_rejected(stream: Seq<u8>, info: ContentInfo, data: Seq<u8>)
    requires
        info.range.0 != stream.len(),
    ensures
        chunk_outcome(stream, Some(info), data) == Err::<u64, StorageDriverError>(
            StorageDriverError::InvalidContentRange,
        ),
        stream_after_chunk(stream, Some(info), data) == stream,
{
}

/// Writes through the same destination go to one stream: two unconstrained
/// writes leave both pieces, in order, after what was there.
pub proof fn lemma_same_destination_appends(stream: Seq<u8>, first: Seq<u8>, second: Seq<u8>)
    ensures
        stream_after_chunk(stream_after_chunk(stream, None, first), None, second) == stream + first
            + second,
{
    assert(stream + first + second =~= (stream + first) + second);
}

/// Chunks declared back to back, each accepted in turn, build the blob as the
/// concatenation of their contents, and the length reported is the total.
pub proof fn lemma_sequential_chunks_accepted(
    stream: Seq<u8>,
    first: ContentInfo,
    a: Seq<u8>,
    second: ContentInfo,
    b: Seq<u8>,
)
    requires
        chunk_outcome(stream, Some(first), a) is Ok,
        second.range.0 == stream.len() + a.len(),
        second.range.1 + 1 == stream.len() + a.len() + b.len(),
        second.length == b.len(),
        stream.len() + a.len() + b.len() <= u64::MAX,
    ensures
        chunk_outcome(stream_after_chunk(stream, Some(first), a), Some(second), b) == Ok::<
            u64,
            StorageDriverError,
        >((stream.len() + a.len() + b.len()) as u64),
        stream_after_chunk(stream_after_chunk(stream, Some(first), a), Some(second), b) == stream
            + a + b,
{
}

} // verus!
