//! Size arithmetic of the container format.
//!
//! A container is a fixed header followed by the encrypted chunks in order.
//! Every chunk carries [`CHUNK_DATA_SIZE`] bytes of plaintext except the last,
//! which carries the rest, and encryption adds
//! [`ENCRYPTED_CHUNK_EXTRA_DATA_SIZE`] bytes to each of them.

use vstd::prelude::*;
use crate::constants::{
    CHUNK_DATA_SIZE, ENCRYPTED_CHUNK_EXTRA_DATA_SIZE, ENCRYPTED_FILE_HEADER_SIZE, MAX_FILE_SIZE,
};

verus! {

/// Number of chunks in a file of `raw_file_size` plaintext bytes: the size
/// divided by the chunk size, rounded up. An empty file has no chunks.
pub open spec fn chunk_count(raw_file_size: nat) -> nat {
    if raw_file_size % (CHUNK_DATA_SIZE as nat) == 0 {
        raw_file_size / (CHUNK_DATA_SIZE as nat)
    } else {
        raw_file_size / (CHUNK_DATA_SIZE as nat) + 1
    }
}

/// Size of the container that holds `raw_file_size` plaintext bytes.
pub open spec fn encrypted_file_size(raw_file_size: nat) -> nat {
    ENCRYPTED_FILE_HEADER_SIZE as nat + chunk_count(raw_file_size) * (
    ENCRYPTED_CHUNK_EXTRA_DATA_SIZE as nat) + raw_file_size
}

/// What a container holds beyond the file itself is its header and the
/// overhead of each chunk.
pub proof fn lemma_container_overhead(raw_file_size: nat)
    ensures
        encrypted_file_size(raw_file_size) - raw_file_size == ENCRYPTED_FILE_HEADER_SIZE
            + chunk_count(raw_file_size) * ENCRYPTED_CHUNK_EXTRA_DATA_SIZE,
{
}

/// `chunk_count` is the least number of chunks that can hold the file.
pub proof fn lemma_chunk_count_is_ceiling(raw_file_size: nat)
    ensures
        chunk_count(raw_file_size) * CHUNK_DATA_SIZE >= raw_file_size,
        chunk_count(raw_file_size) > 0 ==> (chunk_count(raw_file_size) - 1) * CHUNK_DATA_SIZE
            < raw_file_size,
        chunk_count(raw_file_size) == 0 <==> raw_file_size == 0,
{
    assert(CHUNK_DATA_SIZE == 2097152);
    let q = raw_file_size / 2097152;
    let r = raw_file_size % 2097152;
    assert(raw_file_size == 2097152 * q + r && 0 <= r < 2097152);
}

/// A file within the upload limit has a container size that fits in 64 bits
/// with room to spare.
pub proof fn lemma_encrypted_file_size_bounded(raw_file_size: nat)
    requires
        raw_file_size <= MAX_FILE_SIZE,
    ensures
        chunk_count(raw_file_size) <= 524288,
        encrypted_file_size(raw_file_size) <= MAX_FILE_SIZE + 44 * 524288 + 4,
        encrypted_file_size(raw_file_size) <= u64::MAX,
{
    assert(CHUNK_DATA_SIZE == 2097152 && MAX_FILE_SIZE == 1099511627776);
    let q = raw_file_size / 2097152;
    let r = raw_file_size % 2097152;
    assert(raw_file_size == 2097152 * q + r && 0 <= r < 2097152);
    assert(q <= 524288);
    assert(r != 0 ==> q < 524288);
}

/// Number of chunks in a file of `raw_file_size` plaintext bytes.
pub fn calc_file_chunk_count(raw_file_size: u64) -> (count: u64)
    ensures
        count == chunk_count(raw_file_size as nat),
{
    let quotient = raw_file_size / (CHUNK_DATA_SIZE as u64);
    let remainder = raw_file_size % (CHUNK_DATA_SIZE as u64);
    assert(CHUNK_DATA_SIZE == 2097152);
    assert(quotient == raw_file_size / 2097152);
    assert(quotient * 2097152 <= raw_file_size);

    if remainder == 0 {
        quotient
    } else {
        quotient + 1
    }
}

/// Size of the container that holds `raw_file_size` plaintext bytes. It
/// exceeds the file by the header and the overhead of each chunk.
pub fn calc_encrypted_file_size(raw_file_size: u64) -> (size: u64)
    requires
        encrypted_file_size(raw_file_size as nat) <= u64::MAX,
    ensures
        size == encrypted_file_size(raw_file_size as nat),
        size - raw_file_size == ENCRYPTED_FILE_HEADER_SIZE + chunk_count(raw_file_size as nat)
            * ENCRYPTED_CHUNK_EXTRA_DATA_SIZE,
{
    let chunk_count = calc_file_chunk_count(raw_file_size);
    let header_size = ENCRYPTED_FILE_HEADER_SIZE as u64;
    let overhead = header_size + chunk_count * (ENCRYPTED_CHUNK_EXTRA_DATA_SIZE as u64);

    overhead + raw_file_size
}

/// Plaintext bytes carried by an encrypted chunk of `encrypted_chunk_size`
/// bytes.
pub fn calc_raw_chunk_size(encrypted_chunk_size: u64) -> (size: u64)
    requires
        encrypted_chunk_size >= ENCRYPTED_CHUNK_EXTRA_DATA_SIZE,
    ensures
        size + ENCRYPTED_CHUNK_EXTRA_DATA_SIZE == encrypted_chunk_size,
{
    encrypted_chunk_size - ENCRYPTED_CHUNK_EXTRA_DATA_SIZE as u64
}

} // verus!
