//! What reassembly guarantees, whatever the order of arrival.
//!
//! The chunks of a file reach an upload once each, in some order. As long as
//! no chunk finds the buffer full, the bytes handed to the writer are the
//! chunks in ascending order, and nothing else: the order of arrival leaves
//! no trace.

use vstd::prelude::*;
use vstd::seq_lib::lemma_flatten_concat;
use vstd::set_lib::lemma_len_subset;
use crate::constants::{
    CHUNK_DATA_SIZE, ENCRYPTED_CHUNK_EXTRA_DATA_SIZE, ENCRYPTED_CHUNK_SIZE,
    ENCRYPTED_FILE_HEADER_SIZE, MAX_FILE_SIZE, MAX_UPLOAD_CONCURRENT_CHUNKS,
};
use crate::download_utils::{chunk_range, chunk_read_offset, chunk_read_size, ChunkRange};
use crate::errors::TransferError;
use crate::formats::{
    chunk_count, encrypted_file_size, lemma_chunk_count_is_ceiling,
    lemma_encrypted_file_size_bounded,
};
use crate::upload_utils::{lemma_write_next_wf, UploadState};

verus! {

/// Size on the wire of the chunk at position `index` of a file of `file_size`
/// plaintext bytes.
pub open spec fn chunk_size_at(file_size: nat, index: int) -> nat {
    (UploadState::bytes_in_chunks(file_size, index + 1) - UploadState::bytes_in_chunks(
        file_size,
        index,
    ) + ENCRYPTED_CHUNK_EXTRA_DATA_SIZE) as nat
}

/// Each of `chunks` has the size that its position in the file calls for.
pub open spec fn chunks_fit(file_size: nat, chunks: Seq<Seq<u8>>) -> bool {
    forall|i: int|
        0 <= i < chunks.len() ==> (#[trigger] chunks[i]).len() == chunk_size_at(file_size, i)
}

/// `order` holds each of the ids `0 .. count` exactly once.
pub open spec fn is_delivery_order(order: Seq<i64>, count: nat) -> bool {
    &&& order.len() == count
    &&& order.no_duplicates()
    &&& forall|k: int| 0 <= k < order.len() ==> 0 <= #[trigger] order[k] < count
}

/// The state after the chunks named by `order` were submitted one after the
/// other.
pub open spec fn deliver(start: UploadState, order: Seq<i64>, chunks: Seq<Seq<u8>>) -> UploadState
    decreases order.len(),
{
    if order.len() == 0 {
        start
    } else {
        deliver(start, order.drop_last(), chunks).accept(
            order.last(),
            chunks[order.last() as int],
        )
    }
}

/// No chunk of `order` found the buffer full when it arrived.
pub open spec fn never_saturated(
    start: UploadState,
    order: Seq<i64>,
    chunks: Seq<Seq<u8>>,
) -> bool {
    forall|k: int|
        0 <= k < order.len() ==> (#[trigger] deliver(
            start,
            order.take(k),
            chunks,
        )).buffered_chunks.dom().len() < MAX_UPLOAD_CONCURRENT_CHUNKS
}

/// `state` is what an upload that began as `start` looks like once the
/// chunks in `delivered` have arrived: the leading run is written, the
/// others wait.
spec fn assembled(
    start: UploadState,
    state: UploadState,
    delivered: Set<i64>,
    chunks: Seq<Seq<u8>>,
) -> bool {
    let next = state.next_chunk_id();
    &&& state.wf()
    &&& state.user_id == start.user_id
    &&& state.upload_file_name == start.upload_file_name
    &&& state.file_size == start.file_size
    &&& state.finalise_in_progress == start.finalise_in_progress
    &&& 0 <= next <= chunks.len()
    &&& forall|id: i64| 0 <= id < next ==> #[trigger] delivered.contains(id)
    &&& forall|id: i64| #[trigger] delivered.contains(id) ==> 0 <= id < chunks.len()
    &&& forall|id: i64| #[trigger]
        state.buffered_chunks.contains_key(id) <==> delivered.contains(id) && id >= next
    &&& forall|id: i64| #[trigger]
        state.buffered_chunks.contains_key(id) ==> state.buffered_chunks[id] == chunks[id as int]
    &&& state.pending_output == start.pending_output + chunks.take(next).flatten()
}

/// In an assembled state the chunk next in line has not arrived.
spec fn settled(
    start: UploadState,
    state: UploadState,
    delivered: Set<i64>,
    chunks: Seq<Seq<u8>>,
) -> bool {
    &&& assembled(start, state, delivered, chunks)
    &&& !state.next_is_buffered()
}

/// A state whose written bytes are those of its written chunks expects next
/// the size of the chunk at the next position.
proof fn lemma_expected_size(state: UploadState)
    requires
        state.wf(),
    ensures
        state.expected_chunk_size() == chunk_size_at(state.file_size, state.next_chunk_id()),
{
    let chunks = state.next_chunk_id();
    assert((chunks + 1) * CHUNK_DATA_SIZE == chunks * CHUNK_DATA_SIZE + CHUNK_DATA_SIZE)
        by (nonlinear_arith);
}

/// Draining an assembled state writes the run of chunks that has become
/// complete and stops at the first chunk that has not arrived.
proof fn lemma_drain_settles(
    start: UploadState,
    state: UploadState,
    delivered: Set<i64>,
    chunks: Seq<Seq<u8>>,
)
    requires
        assembled(start, state, delivered, chunks),
        chunks_fit(start.file_size, chunks),
    ensures
        settled(start, state.write_ready(), delivered, chunks),
        state.drain() == state.write_ready(),
        state.drain_outcome() == Ok::<(), TransferError>(()),
    decreases state.buffered_chunks.dom().len(),
{
    let next = state.next_chunk_id();
    if state.next_is_buffered() {
        assert(delivered.contains(next as i64));
        lemma_expected_size(state);
        assert(state.next_chunk() == chunks[next]);
        assert(state.next_is_writable());
        lemma_write_next_wf(state);
        let after = state.write_next();
        assert(chunks.take(next + 1) =~= chunks.take(next).push(chunks[next]));
        chunks.take(next).lemma_flatten_push(chunks[next]);
        assert(after.pending_output =~= start.pending_output + chunks.take(next + 1).flatten());
        assert(assembled(start, after, delivered, chunks));
        lemma_drain_settles(start, after, delivered, chunks);
    }
}

/// An assembled state turns a chunk that has not arrived away only if the
/// buffer is full, and is settled again once it has taken the chunk in.
proof fn lemma_accept_settles(
    start: UploadState,
    state: UploadState,
    delivered: Set<i64>,
    chunks: Seq<Seq<u8>>,
    id: i64,
)
    requires
        settled(start, state, delivered, chunks),
        chunks_fit(start.file_size, chunks),
        0 <= id < chunks.len(),
        !delivered.contains(id),
        state.buffered_chunks.dom().len() < MAX_UPLOAD_CONCURRENT_CHUNKS,
    ensures
        state.rejection(id) is None,
        state.accept_outcome(id, chunks[id as int]) == Ok::<(), TransferError>(()),
        settled(start, state.accept(id, chunks[id as int]), delivered.insert(id), chunks),
{
    let buffered = state.buffer(id, chunks[id as int]);
    assert(id >= state.next_chunk_id());
    assert(buffered.wf());
    assert(assembled(start, buffered, delivered.insert(id), chunks));
    lemma_drain_settles(start, buffered, delivered.insert(id), chunks);
}

/// Every prefix of a delivery that never found the buffer full leaves the
/// upload settled on the chunks that it holds.
proof fn lemma_deliver_settles(start: UploadState, order: Seq<i64>, chunks: Seq<Seq<u8>>, k: int)
    requires
        start.wf(),
        start.prev_written_chunk_id == -1,
        start.buffered_chunks == Map::<i64, Seq<u8>>::empty(),
        chunks_fit(start.file_size, chunks),
        is_delivery_order(order, chunks.len()),
        0 <= k <= order.len(),
        forall|j: int|
            0 <= j < k ==> (#[trigger] deliver(
                start,
                order.take(j),
                chunks,
            )).buffered_chunks.dom().len() < MAX_UPLOAD_CONCURRENT_CHUNKS,
    ensures
        settled(start, deliver(start, order.take(k), chunks), order.take(k).to_set(), chunks),
    decreases k,
{
    if k == 0 {
        assert(chunks.take(0) =~= Seq::<Seq<u8>>::empty());
        assert(start.pending_output =~= start.pending_output + chunks.take(0).flatten());
        assert(order.take(0).to_set() =~= Set::<i64>::empty());
    } else {
        let earlier = order.take(k - 1);
        let id = order[k - 1];
        lemma_deliver_settles(start, order, chunks, k - 1);
        assert(order.take(k).drop_last() =~= earlier);
        assert(order.take(k).last() == id);
        assert(order.take(k).to_set() =~= earlier.to_set().insert(id)) by {
            assert forall|x: i64|
                order.take(k).to_set().contains(x) implies earlier.to_set().insert(id).contains(
                x,
            ) by {
                let j = choose|j: int| 0 <= j < k && order.take(k)[j] == x;
                if j < k - 1 {
                    assert(earlier[j] == x);
                }
            }
            assert forall|x: i64| earlier.to_set().insert(id).contains(x) implies order.take(
                k,
            ).to_set().contains(x) by {
                if x == id {
                    assert(order.take(k)[k - 1] == x);
                } else {
                    let j = choose|j: int| 0 <= j < k - 1 && earlier[j] == x;
                    assert(order.take(k)[j] == x);
                }
            }
        }
        assert(!earlier.to_set().contains(id)) by {
            if earlier.to_set().contains(id) {
                let j = choose|j: int| 0 <= j < k - 1 && earlier[j] == id;
                assert(order[j] == order[k - 1]);
            }
        }
        lemma_accept_settles(start, deliver(start, earlier, chunks), earlier.to_set(), chunks, id);
    }
}

/// Order independence. The chunks of a file, submitted once each to a new
/// upload in any order in which none of them finds the buffer full, are all
/// accepted and reach the writer in ascending order: the output grows by
/// exactly the chunks laid end to end, nothing is left waiting, and the
/// bytes written are those of the chunks submitted.
pub proof fn lemma_delivery_assembles_the_file(
    start: UploadState,
    order: Seq<i64>,
    chunks: Seq<Seq<u8>>,
)
    requires
        start.wf(),
        start.prev_written_chunk_id == -1,
        start.buffered_chunks == Map::<i64, Seq<u8>>::empty(),
        chunks_fit(start.file_size, chunks),
        is_delivery_order(order, chunks.len()),
        never_saturated(start, order, chunks),
    ensures
        deliver(start, order, chunks) == (UploadState {
            written_bytes: UploadState::bytes_in_chunks(start.file_size, chunks.len() as int),
            prev_written_chunk_id: chunks.len() - 1,
            pending_output: start.pending_output + chunks.flatten(),
            ..start
        }),
        chunks.len() >= chunk_count(start.file_size) ==> deliver(
            start,
            order,
            chunks,
        ).written_bytes == start.file_size,
{
    let count = chunks.len() as int;
    let end = deliver(start, order, chunks);
    lemma_deliver_settles(start, order, chunks, count);
    assert(order.take(count) =~= order);
    let delivered = order.to_set();
    let next = end.next_chunk_id();
    // Every id below `count` was delivered, so the first that was not is `count`.
    lemma_order_is_short(order, count);
    assert(next == count) by {
        if next < count {
            lemma_order_holds_every_id(order, count, next as i64);
            assert(end.buffered_chunks.contains_key(next as i64));
        }
    }
    assert(chunks.take(count) =~= chunks);
    assert(end.buffered_chunks =~= Map::<i64, Seq<u8>>::empty());
    lemma_chunk_count_is_ceiling(start.file_size);
    if chunks.len() >= chunk_count(start.file_size) {
        assert(chunks.len() * CHUNK_DATA_SIZE >= chunk_count(start.file_size) * CHUNK_DATA_SIZE)
            by (nonlinear_arith)
            requires
                chunks.len() >= chunk_count(start.file_size),
        ;
    }
}

/// Ids are 64-bit numbers, so an order cannot name more chunks than there
/// are such numbers.
proof fn lemma_order_is_short(order: Seq<i64>, count: int)
    requires
        is_delivery_order(order, count as nat),
        0 <= count,
    ensures
        count <= i64::MAX + 1,
{
    let limit = i64::MAX + 1;
    if count > limit {
        let head = order.take(limit + 1);
        let all = Set::new(|x: i64| 0 <= x < limit);
        lemma_ids_below(limit);
        assert(head.no_duplicates());
        assert(head.to_set().subset_of(all)) by {
            assert forall|x: i64| head.to_set().contains(x) implies all.contains(x) by {
                let j = choose|j: int| 0 <= j < head.len() && head[j] == x;
                assert(0 <= order[j]);
            }
        }
        lemma_len_subset(head.to_set(), all);
        head.unique_seq_to_set();
    }
}

/// A sequence that holds each of `0 .. count` once holds `id`.
proof fn lemma_order_holds_every_id(order: Seq<i64>, count: int, id: i64)
    requires
        is_delivery_order(order, count as nat),
        0 <= id < count,
    ensures
        order.to_set().contains(id),
{
    lemma_order_is_short(order, count);
    if !order.to_set().contains(id) {
        // The ids of `order` lie in `0 .. count` without `id`: fewer than
        // `order` has places.
        let ids = order.to_set();
        let others = Set::new(|x: i64| 0 <= x < count && x != id);
        let all = Set::new(|x: i64| 0 <= x < count);
        lemma_ids_below(count);
        assert(others =~= all.remove(id));
        assert(ids.subset_of(others)) by {
            assert forall|x: i64| ids.contains(x) implies others.contains(x) by {
                let j = choose|j: int| 0 <= j < order.len() && order[j] == x;
                assert(0 <= order[j] < count);
            }
        }
        lemma_len_subset(ids, others);
        order.unique_seq_to_set();
    }
}

/// There are `count` ids below `count`.
proof fn lemma_ids_below(count: int)
    requires
        0 <= count <= i64::MAX + 1,
    ensures
        Set::new(|x: i64| 0 <= x < count).finite(),
        Set::new(|x: i64| 0 <= x < count).len() == count,
    decreases count,
{
    let all = Set::new(|x: i64| 0 <= x < count);
    if count == 0 {
        assert(all =~= Set::<i64>::empty());
    } else {
        let fewer = Set::new(|x: i64| 0 <= x < count - 1);
        lemma_ids_below(count - 1);
        assert(all =~= fewer.insert((count - 1) as i64));
    }
}

/// An upload of no more chunks than the buffer holds never turns a chunk
/// away, whatever the order of arrival.
pub proof fn lemma_short_upload_never_saturates(
    start: UploadState,
    order: Seq<i64>,
    chunks: Seq<Seq<u8>>,
)
    requires
        start.wf(),
        start.prev_written_chunk_id == -1,
        start.buffered_chunks == Map::<i64, Seq<u8>>::empty(),
        chunks_fit(start.file_size, chunks),
        is_delivery_order(order, chunks.len()),
        chunks.len() <= MAX_UPLOAD_CONCURRENT_CHUNKS,
    ensures
        never_saturated(start, order, chunks),
{
    lemma_buffer_holds_earlier_chunks(start, order, chunks, order.len() as int);
}

/// While fewer chunks have arrived than the buffer holds, it is not full.
proof fn lemma_buffer_holds_earlier_chunks(
    start: UploadState,
    order: Seq<i64>,
    chunks: Seq<Seq<u8>>,
    k: int,
)
    requires
        start.wf(),
        start.prev_written_chunk_id == -1,
        start.buffered_chunks == Map::<i64, Seq<u8>>::empty(),
        chunks_fit(start.file_size, chunks),
        is_delivery_order(order, chunks.len()),
        chunks.len() <= MAX_UPLOAD_CONCURRENT_CHUNKS,
        0 <= k <= order.len(),
    ensures
        forall|j: int|
            0 <= j < k ==> (#[trigger] deliver(
                start,
                order.take(j),
                chunks,
            )).buffered_chunks.dom().len() < MAX_UPLOAD_CONCURRENT_CHUNKS,
    decreases k,
{
    if k > 0 {
        lemma_buffer_holds_earlier_chunks(start, order, chunks, k - 1);
        lemma_deliver_settles(start, order, chunks, k - 1);
        let earlier = order.take(k - 1);
        let state = deliver(start, earlier, chunks);
        assert(state.buffered_chunks.dom().subset_of(earlier.to_set()));
        earlier.unique_seq_to_set();
        vstd::seq_lib::seq_to_set_is_finite(earlier);
        lemma_len_subset(state.buffered_chunks.dom(), earlier.to_set());
    }
}

/// The order of arrival is immaterial: two orders of the same chunks in
/// which no chunk finds the buffer full leave the upload in the same state,
/// with byte-identical output.
pub proof fn lemma_delivery_order_is_immaterial(
    start: UploadState,
    first: Seq<i64>,
    second: Seq<i64>,
    chunks: Seq<Seq<u8>>,
)
    requires
        start.wf(),
        start.prev_written_chunk_id == -1,
        start.buffered_chunks == Map::<i64, Seq<u8>>::empty(),
        chunks_fit(start.file_size, chunks),
        is_delivery_order(first, chunks.len()),
        is_delivery_order(second, chunks.len()),
        never_saturated(start, first, chunks),
        never_saturated(start, second, chunks),
    ensures
        deliver(start, first, chunks) == deliver(start, second, chunks),
{
    lemma_delivery_assembles_the_file(start, first, chunks);
    lemma_delivery_assembles_the_file(start, second, chunks);
}

/// What goes in comes out. In the container of a file, the bytes that a
/// download reads for chunk `index` are those that the upload wrote for it:
/// they begin after the header and the chunks before it, and there are as
/// many of them as the chunk at that position has.
pub proof fn lemma_download_reads_what_upload_wrote(file_size: nat, index: int)
    requires
        file_size <= MAX_FILE_SIZE,
        0 <= index < chunk_count(file_size),
    ensures
        chunk_range(encrypted_file_size(file_size) as u64, index as u64) == Ok::<
            ChunkRange,
            TransferError,
        >(
            ChunkRange {
                read_offset: (ENCRYPTED_FILE_HEADER_SIZE + index * ENCRYPTED_CHUNK_SIZE) as u64,
                read_size: chunk_size_at(file_size, index) as u64,
            },
        ),
        index + 1 == chunk_count(file_size) ==> ENCRYPTED_FILE_HEADER_SIZE + index
            * ENCRYPTED_CHUNK_SIZE + chunk_size_at(file_size, index) == encrypted_file_size(
            file_size,
        ),
{
    let count = chunk_count(file_size) as int;
    lemma_chunk_count_is_ceiling(file_size);
    lemma_encrypted_file_size_bounded(file_size);
    assert(CHUNK_DATA_SIZE == 2097152 && ENCRYPTED_CHUNK_SIZE == 2097196);
    assert(ENCRYPTED_CHUNK_EXTRA_DATA_SIZE == 44 && ENCRYPTED_FILE_HEADER_SIZE == 4);
    // Everything below is linear once the products are written with the
    // sizes as numbers.
    assert(count * CHUNK_DATA_SIZE == count * 2097152);
    assert((count - 1) * CHUNK_DATA_SIZE == (count - 1) * 2097152);
    assert(index * CHUNK_DATA_SIZE == index * 2097152);
    assert((index + 1) * CHUNK_DATA_SIZE == (index + 1) * 2097152);
    assert(index * ENCRYPTED_CHUNK_SIZE == index * 2097196);
    assert((index as u64) * ENCRYPTED_CHUNK_SIZE == index * 2097196);
    assert(count * ENCRYPTED_CHUNK_EXTRA_DATA_SIZE == count * 44);
    let written = index * 2097152;
    let offset = 4 + index * 2097196;
    let size = 4 + count * 44 + file_size;
    assert(encrypted_file_size(file_size) == size);
    assert(written < file_size);
    assert(UploadState::bytes_in_chunks(file_size, index) == written);
    assert(chunk_read_offset(index as u64) == offset);
    if index + 1 < count {
        assert((index + 1) * 2097152 < file_size);
        assert(UploadState::bytes_in_chunks(file_size, index + 1) == written + 2097152);
        assert(chunk_size_at(file_size, index) == 2097196);
        assert(size - offset >= 2097196);
        assert(chunk_read_size(size as u64, offset as nat) == 2097196);
    } else {
        assert(UploadState::bytes_in_chunks(file_size, index + 1) == file_size);
        assert(chunk_size_at(file_size, index) == file_size - written + 44);
        assert(size - offset == file_size - written + 44);
        assert(chunk_read_size(size as u64, offset as nat) == file_size - written + 44);
    }
}

/// The first `count` chunks of a file, laid end to end, are as long as their
/// plaintext and the overhead of each.
proof fn lemma_chunks_length(file_size: nat, chunks: Seq<Seq<u8>>, count: int)
    requires
        chunks_fit(file_size, chunks),
        0 <= count <= chunks.len(),
    ensures
        chunks.take(count).flatten().len() == UploadState::bytes_in_chunks(file_size, count)
            + count * ENCRYPTED_CHUNK_EXTRA_DATA_SIZE,
    decreases count,
{
    if count == 0 {
        assert(chunks.take(0) =~= Seq::<Seq<u8>>::empty());
        assert(0 * CHUNK_DATA_SIZE == 0);
    } else {
        lemma_chunks_length(file_size, chunks, count - 1);
        assert(chunks.take(count) =~= chunks.take(count - 1).push(chunks[count - 1]));
        chunks.take(count - 1).lemma_flatten_push(chunks[count - 1]);
        assert(count * CHUNK_DATA_SIZE == (count - 1) * CHUNK_DATA_SIZE + CHUNK_DATA_SIZE)
            by (nonlinear_arith);
        assert(count * ENCRYPTED_CHUNK_EXTRA_DATA_SIZE == (count - 1)
            * ENCRYPTED_CHUNK_EXTRA_DATA_SIZE + ENCRYPTED_CHUNK_EXTRA_DATA_SIZE)
            by (nonlinear_arith);
    }
}

/// Round trip. The container of a file is its header and its chunks laid
/// end to end, which is what an upload hands to the writer. It has the size
/// that the format calls for, and the bytes that a download reads from it
/// for chunk `index` are chunk `index` as it was uploaded.
pub proof fn lemma_download_returns_the_uploaded_chunk(
    file_size: nat,
    header: Seq<u8>,
    chunks: Seq<Seq<u8>>,
    index: int,
)
    requires
        file_size <= MAX_FILE_SIZE,
        header.len() == ENCRYPTED_FILE_HEADER_SIZE,
        chunks.len() == chunk_count(file_size),
        chunks_fit(file_size, chunks),
        0 <= index < chunks.len(),
    ensures
        (header + chunks.flatten()).len() == encrypted_file_size(file_size),
        chunk_range((header + chunks.flatten()).len() as u64, index as u64) is Ok,
        ({
            let container = header + chunks.flatten();
            let range = chunk_range(container.len() as u64, index as u64)->Ok_0;
            container.subrange(
                range.read_offset as int,
                range.read_offset + range.read_size,
            ) == chunks[index]
        }),
{
    let count = chunks.len() as int;
    let container = header + chunks.flatten();
    let before = chunks.take(index);
    let after = chunks.skip(index + 1);
    lemma_chunk_count_is_ceiling(file_size);
    lemma_encrypted_file_size_bounded(file_size);
    lemma_download_reads_what_upload_wrote(file_size, index);
    lemma_chunks_length(file_size, chunks, count);
    lemma_chunks_length(file_size, chunks, index);
    assert(chunks.take(count) =~= chunks);
    assert(index * CHUNK_DATA_SIZE <= (count - 1) * CHUNK_DATA_SIZE) by (nonlinear_arith)
        requires
            index <= count - 1,
    ;
    assert((count - 1) * CHUNK_DATA_SIZE == count * CHUNK_DATA_SIZE - CHUNK_DATA_SIZE)
        by (nonlinear_arith);
    assert(index * ENCRYPTED_CHUNK_SIZE == index * CHUNK_DATA_SIZE + index
        * ENCRYPTED_CHUNK_EXTRA_DATA_SIZE) by (nonlinear_arith)
        requires
            ENCRYPTED_CHUNK_SIZE == CHUNK_DATA_SIZE + ENCRYPTED_CHUNK_EXTRA_DATA_SIZE,
    ;
    assert(container.len() == encrypted_file_size(file_size));
    assert(before.flatten().len() == index * ENCRYPTED_CHUNK_SIZE);
    assert(chunks =~= before.push(chunks[index]) + after);
    lemma_flatten_concat(before.push(chunks[index]), after);
    before.lemma_flatten_push(chunks[index]);
    assert(chunks.flatten() =~= before.flatten() + chunks[index] + after.flatten());
    let start = ENCRYPTED_FILE_HEADER_SIZE + index * ENCRYPTED_CHUNK_SIZE;
    assert(container.subrange(start, start + chunks[index].len()) =~= chunks[index]);
}

} // verus!
