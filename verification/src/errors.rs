//! The ways a transfer can fail.

use vstd::prelude::*;

verus! {

/// Why an upload or download request was refused. Every failure concerns one
/// transfer only; none of them is fatal to the others.
#[derive(Debug, Clone, Copy, PartialEq, Eq, Structural)]
pub enum TransferError {
    /// No session is registered under the handle.
    UnknownHandle,
    /// The chunk is already waiting in the buffer.
    DuplicateChunk,
    /// The chunk was written before.
    StaleChunk,
    /// The next chunk in line has `actual` bytes where its place in the file
    /// calls for `expected`. The chunk was thrown out and can be sent again.
    ChunkSizeMismatch { expected: u64, actual: u64 },
    /// The buffer of waiting chunks is full.
    TooManyPendingChunks,
    /// The upload cannot be finalised: `bytes_remaining` bytes are still to be
    /// written, or chunks are still waiting.
    IncompleteUpload { bytes_remaining: u64 },
    /// Finalisation of the upload was asked for before.
    AlreadyFinalizing,
    /// The temporary file of an upload could not be created.
    IoError,
    /// The finished container could not be moved into permanent storage.
    FinalizeIoError,
    /// No stored container exists under the handle.
    FileNotFound,
    /// The chunk lies past the end of the container.
    ChunkOutOfRange,
}

} // verus!
