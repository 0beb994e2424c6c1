//! One upload in progress: the reassembly buffer and the write cursor.
//!
//! Chunks may arrive in any order. A chunk that is not next in line waits in
//! the buffer; as soon as the next one is there, it and every chunk that
//! follows it without a gap are handed to the writer in ascending order.

use std::collections::BTreeMap;
use vstd::prelude::*;
use crate::constants::{
    CHUNK_DATA_SIZE, ENCRYPTED_CHUNK_EXTRA_DATA_SIZE, MAX_FILE_SIZE, MAX_UPLOAD_CONCURRENT_CHUNKS,
};
use crate::errors::TransferError;
use crate::formats::calc_raw_chunk_size;

verus! {

/// The mathematical state of an upload.
pub ghost struct UploadState {
    pub user_id: u64,
    pub upload_file_name: Seq<char>,
    /// Plaintext size that was declared when the upload was opened.
    pub file_size: nat,
    /// Plaintext bytes handed to the writer so far.
    pub written_bytes: nat,
    /// Id of the last chunk handed to the writer, `-1` before the first.
    pub prev_written_chunk_id: int,
    /// Chunks that wait for an earlier one, by id.
    pub buffered_chunks: Map<i64, Seq<u8>>,
    pub finalise_in_progress: bool,
    /// Bytes handed to the writer and not yet taken from it.
    pub pending_output: Seq<u8>,
}

impl UploadState {
    /// A new upload: nothing written, nothing waiting.
    pub open spec fn fresh(user_id: u64, upload_file_name: Seq<char>, file_size: nat) -> Self {
        UploadState {
            user_id,
            upload_file_name,
            file_size,
            written_bytes: 0,
            prev_written_chunk_id: -1,
            buffered_chunks: Map::empty(),
            finalise_in_progress: false,
            pending_output: Seq::empty(),
        }
    }

    /// Plaintext bytes of the first `chunks` chunks of a file of `file_size`
    /// bytes.
    pub open spec fn bytes_in_chunks(file_size: nat, chunks: int) -> nat {
        if chunks * CHUNK_DATA_SIZE <= file_size {
            (chunks * CHUNK_DATA_SIZE) as nat
        } else {
            file_size
        }
    }

/// What holds of every upload: the declared size is within the limit, the
/// bytes written are those of the chunks written, and the buffer holds no
/// more chunks than it may, all of them still to be written.
    pub open spec fn wf(self) -> bool {
        &&& self.file_size <= MAX_FILE_SIZE
        &&& -1 <= self.prev_written_chunk_id <= i64::MAX
        &&& self.written_bytes == Self::bytes_in_chunks(
            self.file_size,
            self.prev_written_chunk_id + 1,
        )
        &&& self.buffered_chunks.dom().finite()
        &&& self.buffered_chunks.dom().len() <= MAX_UPLOAD_CONCURRENT_CHUNKS
        &&& forall|id: i64| #[trigger]
            self.buffered_chunks.contains_key(id) ==> id > self.prev_written_chunk_id
    }

    /// Id of the chunk that is next in line.
    pub open spec fn next_chunk_id(self) -> int {
        self.prev_written_chunk_id + 1
    }

    /// Size on the wire that the next chunk in line must have: a full chunk,
    /// or what is left of the file, plus the encryption overhead.
    pub open spec fn expected_chunk_size(self) -> nat {
        let bytes_left = (self.file_size - self.written_bytes) as nat;
        if bytes_left < CHUNK_DATA_SIZE {
            bytes_left + ENCRYPTED_CHUNK_EXTRA_DATA_SIZE as nat
        } else {
            CHUNK_DATA_SIZE as nat + ENCRYPTED_CHUNK_EXTRA_DATA_SIZE as nat
        }
    }

    /// The next chunk in line is in the buffer.
    pub open spec fn next_is_buffered(self) -> bool {
        &&& self.next_chunk_id() <= i64::MAX
        &&& self.buffered_chunks.contains_key(self.next_chunk_id() as i64)
    }

    /// The next chunk in line, if it is in the buffer.
    pub open spec fn next_chunk(self) -> Seq<u8> {
        self.buffered_chunks[self.next_chunk_id() as i64]
    }

    /// The next chunk in line is in the buffer and has the size that its
    /// place in the file calls for.
    pub open spec fn next_is_writable(self) -> bool {
        &&& self.next_is_buffered()
        &&& self.next_chunk().len() == self.expected_chunk_size()
    }

    /// The state after the next chunk in line has gone from the buffer to the
    /// writer.
    pub open spec fn write_next(self) -> Self {
        UploadState {
            written_bytes: (self.written_bytes + self.next_chunk().len()
                - ENCRYPTED_CHUNK_EXTRA_DATA_SIZE) as nat,
            prev_written_chunk_id: self.next_chunk_id(),
            buffered_chunks: self.buffered_chunks.remove(self.next_chunk_id() as i64),
            pending_output: self.pending_output + self.next_chunk(),
            ..self
        }
    }

    /// The state after every chunk that can be written has been: chunks leave
    /// the buffer for the writer in ascending order until the next in line
    /// is missing or has the wrong size.
    pub open spec fn write_ready(self) -> Self
        decreases self.buffered_chunks.dom().len(),
        when self.buffered_chunks.dom().finite()
    {
        if self.next_is_writable() {
            self.write_next().write_ready()
        } else {
            self
        }
    }

    /// The state after the chunk next in line was thrown out of the buffer
    /// without being written.
    pub open spec fn reject_next(self) -> Self {
        UploadState {
            buffered_chunks: self.buffered_chunks.remove(self.next_chunk_id() as i64),
            ..self
        }
    }

    /// The state after draining: every chunk that can be written has been,
    /// and a chunk of the wrong size at which the writing stopped is thrown
    /// out, so that it can be sent again. The chunks written before it stay
    /// written.
    pub open spec fn drain(self) -> Self {
        let end = self.write_ready();
        if end.next_is_buffered() {
            end.reject_next()
        } else {
            end
        }
    }

    /// What draining reports: a size mismatch if the writing stopped at a
    /// chunk of the wrong size, success if it stopped at a gap.
    pub open spec fn drain_outcome(self) -> Result<(), TransferError> {
        let end = self.write_ready();
        if end.next_is_buffered() {
            Err(
                TransferError::ChunkSizeMismatch {
                    expected: end.expected_chunk_size() as u64,
                    actual: end.next_chunk().len() as u64,
                },
            )
        } else {
            Ok(())
        }
    }

    /// Every declared byte is written and no chunk waits.
    pub open spec fn is_complete(self) -> bool {
        &&& self.written_bytes == self.file_size
        &&& self.buffered_chunks.dom().len() == 0
    }

    /// What a request to finalise is told: it comes too late if one was made
    /// before, and too early while the upload is incomplete.
    pub open spec fn finalise_outcome(self) -> Result<(), TransferError> {
        if self.finalise_in_progress {
            Err(TransferError::AlreadyFinalizing)
        } else if !self.is_complete() {
            Err(
                TransferError::IncompleteUpload {
                    bytes_remaining: (self.file_size - self.written_bytes) as u64,
                },
            )
        } else {
            Ok(())
        }
    }

    /// The state after a request to finalise: the request is on record.
    pub open spec fn finalise_requested(self) -> Self {
        UploadState { finalise_in_progress: true, ..self }
    }

    /// The state with `data` added to the buffer under `chunk_id`.
    pub open spec fn buffer(self, chunk_id: i64, data: Seq<u8>) -> Self {
        UploadState { buffered_chunks: self.buffered_chunks.insert(chunk_id, data), ..self }
    }

    /// Why a chunk is turned away before it reaches the buffer, if it is.
    pub open spec fn rejection(self, chunk_id: i64) -> Option<TransferError> {
        if self.buffered_chunks.contains_key(chunk_id) {
            Some(TransferError::DuplicateChunk)
        } else if chunk_id <= self.prev_written_chunk_id {
            Some(TransferError::StaleChunk)
        } else if self.buffered_chunks.dom().len() >= MAX_UPLOAD_CONCURRENT_CHUNKS {
            Some(TransferError::TooManyPendingChunks)
        } else {
            None
        }
    }

    /// The state after chunk `chunk_id` was submitted: unchanged if the chunk
    /// is turned away, else buffered and drained.
    pub open spec fn accept(self, chunk_id: i64, data: Seq<u8>) -> Self {
        if self.rejection(chunk_id) is Some {
            self
        } else {
            self.buffer(chunk_id, data).drain()
        }
    }

    /// What the submitter of chunk `chunk_id` is told.
    pub open spec fn accept_outcome(self, chunk_id: i64, data: Seq<u8>) -> Result<
        (),
        TransferError,
    > {
        match self.rejection(chunk_id) {
            Some(error) => Err(error),
            None => self.buffer(chunk_id, data).drain_outcome(),
        }
    }
}

/// Writing the next chunk keeps a well-formed state well-formed.
pub proof fn lemma_write_next_wf(s: UploadState)
    requires
        s.wf(),
        s.next_is_writable(),
    ensures
        s.write_next().wf(),
        s.write_next().buffered_chunks.dom().len() < s.buffered_chunks.dom().len(),
{
    let chunks = s.prev_written_chunk_id + 1;
    assert((chunks + 1) * CHUNK_DATA_SIZE == chunks * CHUNK_DATA_SIZE + CHUNK_DATA_SIZE)
        by (nonlinear_arith);
}

/// Writing every chunk that can be written keeps a well-formed state
/// well-formed and ends where the next chunk in line cannot be written.
pub proof fn lemma_write_ready_wf(s: UploadState)
    requires
        s.wf(),
    ensures
        s.write_ready().wf(),
        !s.write_ready().next_is_writable(),
    decreases s.buffered_chunks.dom().len(),
{
    if s.next_is_writable() {
        lemma_write_next_wf(s);
        lemma_write_ready_wf(s.write_next());
    }
}

/// Draining never leaves the chunk next in line in the buffer: either it
/// was written, or it was thrown out for its size and can be sent again, or
/// it has not arrived.
pub proof fn lemma_drain_clears_next(s: UploadState)
    requires
        s.wf(),
    ensures
        s.drain().wf(),
        !s.drain().next_is_buffered(),
        s.drain().rejection(s.drain().next_chunk_id() as i64) != Some(
            TransferError::DuplicateChunk,
        ),
{
    lemma_write_ready_wf(s);
}

/// One upload in progress.
///
/// The session does not touch the file itself. What it decides to write
/// it appends to `pending_output`, in the order in which it belongs in the
/// container, and whoever owns the file takes it from there.
pub struct ActiveUpload {
    pub user_id: u64,
    /// Name of the temporary file that receives the upload.
    pub upload_file_name: String,
    /// The unencrypted size of the file.
    pub file_size: u64,
    /// The amount of plaintext bytes handed to the writer, which leaves out
    /// the overhead of the file format and of encryption.
    pub written_bytes: u64,
    /// The previous written chunk's id, which is used to hand uploaded chunks
    /// to the writer in the correct order. `-1` before the first chunk.
    pub prev_written_chunk_id: i64,
    /// The buffered chunks by their chunk id.
    pub buffered_chunks: BTreeMap<i64, Vec<u8>>,
    pub finalise_in_progress: bool,
    /// Bytes handed to the writer and not yet taken from it.
    pub pending_output: Vec<u8>,
}

impl View for ActiveUpload {
    type V = UploadState;

    open spec fn view(&self) -> UploadState {
        UploadState {
            user_id: self.user_id,
            upload_file_name: self.upload_file_name@,
            file_size: self.file_size as nat,
            written_bytes: self.written_bytes as nat,
            prev_written_chunk_id: self.prev_written_chunk_id as int,
            buffered_chunks: self.buffered_chunks@.map_values(|chunk: Vec<u8>| chunk@),
            finalise_in_progress: self.finalise_in_progress,
            pending_output: self.pending_output@,
        }
    }
}

impl ActiveUpload {
/// A new upload of `file_size` bytes: nothing written, nothing waiting.
    pub fn new(user_id: u64, upload_file_name: String, file_size: u64) -> (upload: Self)
        requires
            file_size <= MAX_FILE_SIZE,
        ensures
            upload@ == UploadState::fresh(user_id, upload_file_name@, file_size as nat),
            upload@.wf(),
    {
        let upload = Self {
            user_id,
            upload_file_name,
            file_size,
            written_bytes: 0,
            prev_written_chunk_id: -1,
            buffered_chunks: BTreeMap::new(),
            finalise_in_progress: false,
            pending_output: Vec::new(),
        };
        assert(upload@.buffered_chunks =~= Map::empty());
        upload
    }

    /// Hands every chunk that can be written to the writer, in ascending
    /// order, and stops at the first gap or at a chunk of the wrong size.
    /// Such a chunk is reported and thrown out of the buffer; afterwards the
    /// chunk next in line is never in the buffer.
    pub fn write_buffered_chunks(&mut self) -> (result: Result<(), TransferError>)
        requires
            old(self)@.wf(),
        ensures
            final(self)@.wf(),
            final(self)@ == old(self)@.drain(),
            result == old(self)@.drain_outcome(),
            !final(self)@.next_is_buffered(),
            final(self)@.written_bytes >= old(self)@.written_bytes,
            final(self)@.prev_written_chunk_id >= old(self)@.prev_written_chunk_id,
            old(self)@.pending_output.is_prefix_of(final(self)@.pending_output),
    {
        loop
            invariant
                self@.wf(),
                self@.write_ready() == old(self)@.write_ready(),
                self@.written_bytes >= old(self)@.written_bytes,
                self@.prev_written_chunk_id >= old(self)@.prev_written_chunk_id,
                old(self)@.pending_output.is_prefix_of(self@.pending_output),
            decreases self@.buffered_chunks.dom().len(),
        {
            if self.prev_written_chunk_id == i64::MAX {
                return Ok(());
            }
            let next_chunk_id = self.prev_written_chunk_id + 1;
            let bytes_left_to_write = self.file_size - self.written_bytes;
            let expected_enc_chunk_size = if bytes_left_to_write < CHUNK_DATA_SIZE as u64 {
                bytes_left_to_write + ENCRYPTED_CHUNK_EXTRA_DATA_SIZE as u64
            } else {
                CHUNK_DATA_SIZE as u64 + ENCRYPTED_CHUNK_EXTRA_DATA_SIZE as u64
            };

            let enc_chunk_size = match self.buffered_chunks.get(&next_chunk_id) {
                Some(chunk) => chunk.len() as u64,
                None => {
                    return Ok(());
                },
            };

            // Ensure chunk size meets expected encrypted chunk size
            if enc_chunk_size != expected_enc_chunk_size {
                // The chunk is of no use: make room for it to be sent again
                let ghost stopped = self@;
                self.buffered_chunks.remove(&next_chunk_id);
                proof {
                    assert(self@.buffered_chunks =~= stopped.reject_next().buffered_chunks);
                    assert(self@ == stopped.reject_next());
                }
                return Err(
                    TransferError::ChunkSizeMismatch {
                        expected: expected_enc_chunk_size,
                        actual: enc_chunk_size,
                    },
                );
            }
            let ghost before = self@;
            match self.buffered_chunks.remove(&next_chunk_id) {
                Some(mut chunk) => {
                    self.pending_output.append(&mut chunk);
                },
                None => {},
            }
            self.written_bytes = self.written_bytes + calc_raw_chunk_size(enc_chunk_size);
            self.prev_written_chunk_id = next_chunk_id;
            proof {
                assert(self@.buffered_chunks =~= before.write_next().buffered_chunks);
                assert(self@ == before.write_next());
                lemma_write_next_wf(before);
            }
        }
    }

    /// Takes in one chunk of the upload.
    ///
    /// A chunk that is already waiting, that was written before, or that
    /// finds the buffer full is turned away and changes nothing. Any other
    /// chunk enters the buffer, and every chunk that can then be written is
    /// handed to the writer. If the writing stops at a chunk of the wrong
    /// size, that chunk is thrown out and the call fails; what was written
    /// before it stays written, and the chunk can be sent again.
    pub fn try_write_chunk(&mut self, new_chunk_id: i64, data: Vec<u8>) -> (result: Result<
        (),
        TransferError,
    >)
        requires
            old(self)@.wf(),
        ensures
            final(self)@.wf(),
            final(self)@ == old(self)@.accept(new_chunk_id, data@),
            result == old(self)@.accept_outcome(new_chunk_id, data@),
            // A chunk that was written before changes nothing when it comes again.
            new_chunk_id <= old(self)@.prev_written_chunk_id ==> {
                &&& result == Err::<(), TransferError>(TransferError::StaleChunk)
                &&& final(self)@ == old(self)@
            },
            // A full buffer turns every new chunk away and stays as it is.
            old(self)@.buffered_chunks.dom().len() >= MAX_UPLOAD_CONCURRENT_CHUNKS
                && new_chunk_id > old(self)@.prev_written_chunk_id
                && !old(self)@.buffered_chunks.contains_key(new_chunk_id) ==> {
                &&& result == Err::<(), TransferError>(TransferError::TooManyPendingChunks)
                &&& final(self)@ == old(self)@
            },
            // A chunk that was let into the buffer leaves the place of the
            // next chunk in line free: what could be written was written,
            // and what had the wrong size was thrown out.
            old(self)@.rejection(new_chunk_id) is None ==> !final(self)@.next_is_buffered(),
            // Whatever becomes of the chunk, nothing written is taken back.
            final(self)@.written_bytes >= old(self)@.written_bytes,
            final(self)@.prev_written_chunk_id >= old(self)@.prev_written_chunk_id,
            old(self)@.pending_output.is_prefix_of(final(self)@.pending_output),
    {
        proof {
            assert(self@.buffered_chunks.dom() =~= self.buffered_chunks@.dom());
        }
        // Ensure chunk id is not a duplicate
        if self.buffered_chunks.contains_key(&new_chunk_id) {
            return Err(TransferError::DuplicateChunk);
        }
        // Ensure chunk id is not less than or equal to the previously written chunk id

        if new_chunk_id <= self.prev_written_chunk_id {
            return Err(TransferError::StaleChunk);
        }
        // Ensure not too many chunks are buffered

        if self.buffered_chunks.len() >= MAX_UPLOAD_CONCURRENT_CHUNKS {
            return Err(TransferError::TooManyPendingChunks);
        }
        // Add chunk to buffer

        let ghost before = self@;
        self.buffered_chunks.insert(new_chunk_id, data);
        proof {
            assert(self@.buffered_chunks =~= before.buffered_chunks.insert(new_chunk_id, data@));
            assert(self@ == before.buffer(new_chunk_id, data@));
        }

        // Flush all buffered chunks
        self.write_buffered_chunks()
    }

    /// Records a request to finalise the upload and says whether it can
    /// go ahead. Only the first request can: the record stays, also where
    /// the upload turns out to be incomplete.
    pub fn begin_finalise(&mut self) -> (result: Result<(), TransferError>)
        requires
            old(self)@.wf(),
        ensures
            final(self)@.wf(),
            final(self)@ == old(self)@.finalise_requested(),
            result == old(self)@.finalise_outcome(),
            // The first request to finalise an upload that still lacks bytes
            // is told how many.
            !old(self)@.finalise_in_progress && old(self)@.written_bytes < old(self)@.file_size
                ==> result == Err::<(), TransferError>(
                TransferError::IncompleteUpload {
                    bytes_remaining: (old(self).file_size - old(self).written_bytes) as u64,
                },
            ),
            result is Ok ==> old(self)@.is_complete(),
    {
        proof {
            assert(self@.buffered_chunks.dom() =~= self.buffered_chunks@.dom());
        }
        if self.finalise_in_progress {
            return Err(TransferError::AlreadyFinalizing);
        }
        self.finalise_in_progress = true;
        if self.written_bytes != self.file_size || self.buffered_chunks.len() != 0 {
            return Err(
                TransferError::IncompleteUpload {
                    bytes_remaining: self.file_size - self.written_bytes,
                },
            );
        }
        Ok(())
    }

    /// Takes the bytes that are due to the file out of the session.
    pub fn take_pending_output(&mut self) -> (output: Vec<u8>)
        ensures
            output@ == old(self)@.pending_output,
            final(self)@ == (UploadState { pending_output: Seq::empty(), ..old(self)@ }),
    {
        let mut output = Vec::new();
        std::mem::swap(&mut self.pending_output, &mut output);
        output
    }
}

} // verus!
