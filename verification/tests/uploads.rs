use treasury::constants::{
    CHUNK_DATA_SIZE, ENCRYPTED_CHUNK_EXTRA_DATA_SIZE, ENCRYPTED_FILE_MAGIC_NUMBER,
    MAX_UPLOAD_CONCURRENT_CHUNKS,
};
use treasury::errors::TransferError;
use treasury::formats::{calc_encrypted_file_size, calc_file_chunk_count};
use treasury::upload_utils::ActiveUpload;
use treasury::uploads_manager::{file_name_of, UploadsManager};

const MIB: u64 = 1024 * 1024;
const OVERHEAD: usize = ENCRYPTED_CHUNK_EXTRA_DATA_SIZE;

/// An encrypted chunk with `raw` bytes of payload, filled with `fill`.
fn chunk(raw: usize, fill: u8) -> Vec<u8> {
    vec![fill; raw + OVERHEAD]
}

fn small_upload(file_size: u64) -> ActiveUpload {
    ActiveUpload::new(7, String::from("abc.tef"), file_size)
}

#[test]
fn a_new_upload_has_written_nothing() {
    let upload = small_upload(10);
    assert_eq!(upload.user_id, 7);
    assert_eq!(upload.upload_file_name, "abc.tef");
    assert_eq!(upload.file_size, 10);
    assert_eq!(upload.written_bytes, 0);
    assert_eq!(upload.prev_written_chunk_id, -1);
    assert!(upload.buffered_chunks.is_empty());
    assert!(!upload.finalise_in_progress);
    assert!(upload.pending_output.is_empty());
}

#[test]
fn the_chunk_in_line_is_written_at_once() {
    let mut upload = small_upload(10);
    assert_eq!(upload.try_write_chunk(0, chunk(10, 1)), Ok(()));
    assert_eq!(upload.written_bytes, 10);
    assert_eq!(upload.prev_written_chunk_id, 0);
    assert!(upload.buffered_chunks.is_empty());
    assert_eq!(upload.pending_output, chunk(10, 1));
}

#[test]
fn a_chunk_ahead_of_its_turn_waits() {
    let mut upload = small_upload(3 * MIB);
    assert_eq!(upload.try_write_chunk(1, chunk(MIB as usize, 2)), Ok(()));
    assert_eq!(upload.written_bytes, 0);
    assert_eq!(upload.prev_written_chunk_id, -1);
    assert_eq!(upload.buffered_chunks.len(), 1);
    assert!(upload.pending_output.is_empty());
}

#[test]
fn a_resubmitted_chunk_is_stale_and_changes_nothing() {
    let mut upload = small_upload(10);
    assert_eq!(upload.try_write_chunk(0, chunk(10, 1)), Ok(()));
    let output = upload.pending_output.clone();

    assert_eq!(upload.try_write_chunk(0, chunk(10, 9)), Err(TransferError::StaleChunk));
    assert_eq!(upload.written_bytes, 10);
    assert_eq!(upload.prev_written_chunk_id, 0);
    assert!(upload.buffered_chunks.is_empty());
    assert_eq!(upload.pending_output, output);
}

#[test]
fn a_negative_chunk_id_is_stale() {
    let mut upload = small_upload(10);
    assert_eq!(upload.try_write_chunk(-1, chunk(10, 1)), Err(TransferError::StaleChunk));
    assert_eq!(upload.try_write_chunk(i64::MIN, chunk(10, 1)), Err(TransferError::StaleChunk));
    assert_eq!(upload.written_bytes, 0);
    assert!(upload.buffered_chunks.is_empty());
}

#[test]
fn a_chunk_that_waits_already_is_a_duplicate() {
    let mut upload = small_upload(5 * MIB);
    assert_eq!(upload.try_write_chunk(2, chunk(MIB as usize, 3)), Ok(()));
    assert_eq!(upload.try_write_chunk(2, chunk(MIB as usize, 4)), Err(TransferError::DuplicateChunk));
    assert_eq!(upload.buffered_chunks.len(), 1);
    assert_eq!(upload.buffered_chunks.get(&2), Some(&chunk(MIB as usize, 3)));
}

#[test]
fn a_full_buffer_turns_chunks_away_and_stays_as_it_is() {
    let mut upload = small_upload(20 * MIB);
    for id in 1..=MAX_UPLOAD_CONCURRENT_CHUNKS as i64 {
        assert_eq!(upload.try_write_chunk(id, chunk(CHUNK_DATA_SIZE, id as u8)), Ok(()));
    }
    assert_eq!(upload.buffered_chunks.len(), MAX_UPLOAD_CONCURRENT_CHUNKS);
    let buffered = upload.buffered_chunks.clone();

    assert_eq!(
        upload.try_write_chunk(6, chunk(CHUNK_DATA_SIZE, 6)),
        Err(TransferError::TooManyPendingChunks)
    );
    // Even the chunk that is next in line finds no room.
    assert_eq!(
        upload.try_write_chunk(0, chunk(CHUNK_DATA_SIZE, 0)),
        Err(TransferError::TooManyPendingChunks)
    );
    assert_eq!(upload.buffered_chunks, buffered);
    assert_eq!(upload.written_bytes, 0);
    assert_eq!(upload.prev_written_chunk_id, -1);
    assert!(upload.pending_output.is_empty());
}

#[test]
fn a_chunk_of_the_wrong_size_is_not_written() {
    let mut upload = small_upload(10);
    assert_eq!(
        upload.try_write_chunk(0, chunk(9, 1)),
        Err(TransferError::ChunkSizeMismatch { expected: 54, actual: 53 })
    );
    assert_eq!(upload.written_bytes, 0);
    assert_eq!(upload.prev_written_chunk_id, -1);
    assert!(upload.pending_output.is_empty());
    // The chunk is thrown out.
    assert!(upload.buffered_chunks.is_empty());
}

#[test]
fn a_chunk_refused_for_its_size_can_be_sent_again() {
    let mut upload = small_upload(100);
    assert_eq!(
        upload.try_write_chunk(0, vec![0; 143]),
        Err(TransferError::ChunkSizeMismatch { expected: 144, actual: 143 })
    );
    assert_eq!(upload.written_bytes, 0);
    assert_eq!(upload.prev_written_chunk_id, -1);
    assert!(upload.buffered_chunks.is_empty());
    assert!(upload.pending_output.is_empty());

    assert_eq!(upload.try_write_chunk(0, vec![7; 144]), Ok(()));
    assert_eq!(upload.written_bytes, 100);
    assert_eq!(upload.prev_written_chunk_id, 0);
    assert_eq!(upload.pending_output, vec![7; 144]);
    assert_eq!(upload.begin_finalise(), Ok(()));
}

#[test]
fn an_upload_goes_on_after_a_chunk_of_the_wrong_size() {
    let mut uploads = manager();
    let handle = String::from("mended");
    assert_eq!(uploads.new_upload(1, &handle, 100, true), Ok(()));
    assert_eq!(
        uploads.accept_chunk(&handle, 0, vec![0; 143]),
        Err(TransferError::ChunkSizeMismatch { expected: 144, actual: 143 })
    );
    assert_eq!(uploads.accept_chunk(&handle, 0, vec![5; 144]), Ok(()));
    assert_eq!(uploads.get_active_upload(&handle).unwrap().written_bytes, 100);

    let finalised = uploads.finalise_upload(&handle).unwrap();
    assert_eq!(finalised.container_size, 4 + 44 + 100);
    let mut expected = ENCRYPTED_FILE_MAGIC_NUMBER.to_vec();
    expected.extend(vec![5; 144]);
    assert_eq!(finalised.remaining_output, expected);
}

#[test]
fn the_chunk_thrown_out_is_the_one_of_the_wrong_size() {
    let mut upload = small_upload(2 * MIB + 5);
    // Chunk 1 is too long and waits; chunk 2 waits behind it.
    assert_eq!(upload.try_write_chunk(1, chunk(6, 2)), Ok(()));
    assert_eq!(upload.try_write_chunk(2, chunk(0, 3)), Ok(()));
    // Chunk 0 is written; the writing stops at chunk 1, which is thrown out.
    assert_eq!(
        upload.try_write_chunk(0, chunk(CHUNK_DATA_SIZE, 1)),
        Err(TransferError::ChunkSizeMismatch { expected: 49, actual: 50 })
    );
    assert_eq!(upload.prev_written_chunk_id, 0);
    assert!(!upload.buffered_chunks.contains_key(&1));
    assert_eq!(upload.buffered_chunks.get(&2), Some(&chunk(0, 3)));

    // Sent again with the right size, chunk 1 is written and chunk 2 after it.
    assert_eq!(upload.try_write_chunk(1, chunk(5, 2)), Ok(()));
    assert_eq!(upload.written_bytes, 2 * MIB + 5);
    assert_eq!(upload.prev_written_chunk_id, 2);
    assert!(upload.buffered_chunks.is_empty());
}

#[test]
fn a_chunk_shorter_than_the_overhead_is_a_mismatch() {
    let mut upload = small_upload(10);
    assert_eq!(
        upload.try_write_chunk(0, vec![0; 3]),
        Err(TransferError::ChunkSizeMismatch { expected: 54, actual: 3 })
    );
}

#[test]
fn chunks_written_before_a_mismatch_stay_written() {
    let mut upload = small_upload(2 * MIB + 5);
    // The last chunk arrives first and is too long.
    assert_eq!(upload.try_write_chunk(1, chunk(6, 2)), Ok(()));
    assert_eq!(
        upload.try_write_chunk(0, chunk(CHUNK_DATA_SIZE, 1)),
        Err(TransferError::ChunkSizeMismatch { expected: 49, actual: 50 })
    );
    assert_eq!(upload.written_bytes, 2 * MIB);
    assert_eq!(upload.prev_written_chunk_id, 0);
    assert_eq!(upload.pending_output, chunk(CHUNK_DATA_SIZE, 1));
    assert!(upload.buffered_chunks.is_empty());
}

#[test]
fn only_the_last_chunk_may_be_short() {
    let mut upload = small_upload(3 * MIB);
    assert_eq!(
        upload.try_write_chunk(0, chunk(MIB as usize, 1)),
        Err(TransferError::ChunkSizeMismatch { expected: 2097196, actual: 1048620 })
    );
}

#[test]
fn draining_on_its_own_writes_what_is_ready() {
    let mut upload = small_upload(10);
    upload.buffered_chunks.insert(0, chunk(10, 5));
    assert_eq!(upload.write_buffered_chunks(), Ok(()));
    assert_eq!(upload.written_bytes, 10);
    assert_eq!(upload.pending_output, chunk(10, 5));
    assert_eq!(upload.write_buffered_chunks(), Ok(()));
    assert_eq!(upload.written_bytes, 10);
}

#[test]
fn draining_throws_a_chunk_of_the_wrong_size_out() {
    let mut upload = small_upload(10);
    upload.buffered_chunks.insert(0, chunk(11, 5));
    upload.buffered_chunks.insert(3, chunk(0, 6));
    assert_eq!(
        upload.write_buffered_chunks(),
        Err(TransferError::ChunkSizeMismatch { expected: 54, actual: 55 })
    );
    assert_eq!(upload.written_bytes, 0);
    assert_eq!(upload.buffered_chunks.len(), 1);
    assert!(upload.buffered_chunks.contains_key(&3));
    // With the chunk gone, draining stops at the gap.
    assert_eq!(upload.write_buffered_chunks(), Ok(()));
}

#[test]
fn taking_the_output_leaves_none_behind() {
    let mut upload = small_upload(10);
    assert_eq!(upload.try_write_chunk(0, chunk(10, 1)), Ok(()));
    assert_eq!(upload.take_pending_output(), chunk(10, 1));
    assert!(upload.pending_output.is_empty());
    assert_eq!(upload.take_pending_output(), Vec::<u8>::new());
    assert_eq!(upload.written_bytes, 10);
}

fn deliver(order: [i64; 3]) -> ActiveUpload {
    let chunks = [chunk(CHUNK_DATA_SIZE, 10), chunk(CHUNK_DATA_SIZE, 11), chunk(MIB as usize, 12)];
    let mut upload = small_upload(5 * MIB);
    for id in order {
        assert_eq!(upload.try_write_chunk(id, chunks[id as usize].clone()), Ok(()));
    }
    upload
}

#[test]
fn the_order_of_arrival_leaves_no_trace() {
    let in_order = deliver([0, 1, 2]);
    let shuffled = deliver([2, 0, 1]);

    let mut expected = chunk(CHUNK_DATA_SIZE, 10);
    expected.extend(chunk(CHUNK_DATA_SIZE, 11));
    expected.extend(chunk(MIB as usize, 12));
    assert_eq!(in_order.pending_output, expected);
    assert_eq!(shuffled.pending_output, in_order.pending_output);
    assert_eq!(shuffled.written_bytes, in_order.written_bytes);
    assert_eq!(shuffled.prev_written_chunk_id, in_order.prev_written_chunk_id);
    assert!(shuffled.buffered_chunks.is_empty());
    assert!(in_order.buffered_chunks.is_empty());
}

#[test]
fn every_order_of_three_chunks_gives_the_same_file() {
    let reference = deliver([0, 1, 2]);
    for order in [[0, 2, 1], [1, 0, 2], [1, 2, 0], [2, 0, 1], [2, 1, 0]] {
        let upload = deliver(order);
        assert_eq!(upload.pending_output, reference.pending_output);
        assert_eq!(upload.written_bytes, 5 * MIB);
        assert_eq!(upload.prev_written_chunk_id, 2);
    }
}

#[test]
fn finalising_too_early_reports_what_is_missing() {
    let mut upload = small_upload(100);
    assert_eq!(
        upload.begin_finalise(),
        Err(TransferError::IncompleteUpload { bytes_remaining: 100 })
    );
    assert!(upload.finalise_in_progress);
    // Only the first request is looked at.
    assert_eq!(upload.begin_finalise(), Err(TransferError::AlreadyFinalizing));
}

#[test]
fn finalising_with_a_chunk_waiting_is_incomplete() {
    let mut upload = small_upload(10);
    assert_eq!(upload.try_write_chunk(0, chunk(10, 1)), Ok(()));
    assert_eq!(upload.try_write_chunk(5, chunk(0, 1)), Ok(()));
    assert_eq!(upload.begin_finalise(), Err(TransferError::IncompleteUpload { bytes_remaining: 0 }));
}

#[test]
fn a_complete_upload_can_be_finalised_once() {
    let mut upload = small_upload(10);
    assert_eq!(upload.try_write_chunk(0, chunk(10, 1)), Ok(()));
    assert_eq!(upload.begin_finalise(), Ok(()));
    assert_eq!(upload.begin_finalise(), Err(TransferError::AlreadyFinalizing));
}

#[test]
fn a_container_file_is_named_after_its_handle() {
    assert_eq!(file_name_of(&String::from("AbCdEfGh12345678")), "AbCdEfGh12345678.tef");
    assert_eq!(file_name_of(&String::new()), ".tef");
}

fn manager() -> UploadsManager {
    UploadsManager::new(String::from("../userfiles"), String::from("../uploads"))
}

#[test]
fn a_new_manager_knows_no_handle() {
    let uploads = manager();
    assert_eq!(uploads.user_files_root_directory(), "../userfiles");
    assert_eq!(uploads.user_upload_directory(), "../uploads");
    assert!(!uploads.is_handle_valid(&String::from("a")));
    assert!(uploads.get_active_upload(&String::from("a")).is_none());
}

#[test]
fn an_upload_whose_file_was_not_created_is_not_registered() {
    let mut uploads = manager();
    let handle = String::from("handle0000000001");
    assert_eq!(uploads.new_upload(1, &handle, 10, false), Err(TransferError::IoError));
    assert!(!uploads.is_handle_valid(&handle));
}

#[test]
fn a_registered_upload_starts_with_the_header() {
    let mut uploads = manager();
    let handle = String::from("handle0000000001");
    assert_eq!(uploads.new_upload(3, &handle, 10, true), Ok(()));
    assert!(uploads.is_handle_valid(&handle));

    let upload = uploads.get_active_upload(&handle).unwrap();
    assert_eq!(upload.user_id, 3);
    assert_eq!(upload.upload_file_name, "handle0000000001.tef");
    assert_eq!(upload.file_size, 10);
    assert_eq!(upload.written_bytes, 0);
    assert_eq!(upload.prev_written_chunk_id, -1);
    assert_eq!(upload.pending_output, ENCRYPTED_FILE_MAGIC_NUMBER.to_vec());
}

#[test]
fn chunks_for_an_unknown_handle_are_refused() {
    let mut uploads = manager();
    assert_eq!(
        uploads.accept_chunk(&String::from("nobody"), 0, chunk(1, 1)),
        Err(TransferError::UnknownHandle)
    );
    assert_eq!(
        uploads.finalise_upload(&String::from("nobody")).err(),
        Some(TransferError::UnknownHandle)
    );
}

#[test]
fn uploads_do_not_touch_each_other() {
    let mut uploads = manager();
    let first = String::from("first");
    let second = String::from("second");
    assert_eq!(uploads.new_upload(1, &first, 10, true), Ok(()));
    assert_eq!(uploads.new_upload(2, &second, 20, true), Ok(()));

    assert_eq!(uploads.accept_chunk(&second, 0, chunk(20, 2)), Ok(()));
    assert_eq!(uploads.get_active_upload(&first).unwrap().written_bytes, 0);
    assert_eq!(uploads.get_active_upload(&second).unwrap().written_bytes, 20);

    let finalised = uploads.finalise_upload(&second).unwrap();
    assert_eq!(finalised.user_id, 2);
    assert!(!uploads.is_handle_valid(&second));
    assert!(uploads.is_handle_valid(&first));
    assert_eq!(uploads.accept_chunk(&first, 0, chunk(10, 1)), Ok(()));
    assert_eq!(uploads.get_active_upload(&first).unwrap().written_bytes, 10);
}

#[test]
fn the_slot_of_a_finished_upload_is_used_again() {
    let mut uploads = manager();
    let first = String::from("first");
    let second = String::from("second");
    let third = String::from("third");
    assert_eq!(uploads.new_upload(1, &first, 0, true), Ok(()));
    assert_eq!(uploads.new_upload(2, &second, 5, true), Ok(()));
    assert!(uploads.finalise_upload(&first).is_ok());
    assert_eq!(uploads.new_upload(3, &third, 7, true), Ok(()));

    assert_eq!(uploads.get_active_upload(&second).unwrap().user_id, 2);
    assert_eq!(uploads.get_active_upload(&third).unwrap().user_id, 3);
    assert_eq!(uploads.get_active_upload(&third).unwrap().file_size, 7);
    assert!(!uploads.is_handle_valid(&first));
}

#[test]
fn opening_an_upload_again_starts_it_over() {
    let mut uploads = manager();
    let handle = String::from("again");
    assert_eq!(uploads.new_upload(1, &handle, 10, true), Ok(()));
    assert_eq!(uploads.accept_chunk(&handle, 0, chunk(10, 1)), Ok(()));
    assert_eq!(uploads.new_upload(1, &handle, 30, true), Ok(()));

    let upload = uploads.get_active_upload(&handle).unwrap();
    assert_eq!(upload.file_size, 30);
    assert_eq!(upload.written_bytes, 0);
    assert_eq!(upload.pending_output, ENCRYPTED_FILE_MAGIC_NUMBER.to_vec());
}

#[test]
fn finalising_an_incomplete_upload_keeps_it_and_blocks_later_requests() {
    let mut uploads = manager();
    let handle = String::from("early");
    assert_eq!(uploads.new_upload(1, &handle, 100, true), Ok(()));
    assert_eq!(uploads.accept_chunk(&handle, 1, chunk(0, 1)), Ok(()));

    assert_eq!(
        uploads.finalise_upload(&handle).err(),
        Some(TransferError::IncompleteUpload { bytes_remaining: 100 })
    );
    assert!(uploads.is_handle_valid(&handle));
    assert!(uploads.get_active_upload(&handle).unwrap().finalise_in_progress);
    assert_eq!(uploads.finalise_upload(&handle).err(), Some(TransferError::AlreadyFinalizing));
    assert!(uploads.is_handle_valid(&handle));
}

#[test]
fn an_empty_file_can_be_finalised_at_once() {
    let mut uploads = manager();
    let handle = String::from("empty");
    assert_eq!(uploads.new_upload(9, &handle, 0, true), Ok(()));
    let finalised = uploads.finalise_upload(&handle).unwrap();
    assert_eq!(finalised.user_id, 9);
    assert_eq!(finalised.upload_file_name, "empty.tef");
    assert_eq!(finalised.container_size, 4);
    assert_eq!(finalised.remaining_output, ENCRYPTED_FILE_MAGIC_NUMBER.to_vec());
    assert_eq!(finalised.complete(true), Ok(4));
}

#[test]
fn a_container_that_could_not_be_moved_fails_the_upload() {
    let mut uploads = manager();
    let handle = String::from("stuck");
    assert_eq!(uploads.new_upload(9, &handle, 0, true), Ok(()));
    let finalised = uploads.finalise_upload(&handle).unwrap();
    assert_eq!(finalised.complete(false), Err(TransferError::FinalizeIoError));
    // The upload is gone all the same.
    assert!(!uploads.is_handle_valid(&handle));
    assert_eq!(uploads.finalise_upload(&handle).err(), Some(TransferError::UnknownHandle));
}

#[test]
fn output_is_taken_from_the_upload_under_the_handle() {
    let mut uploads = manager();
    let handle = String::from("taker");
    assert_eq!(uploads.take_pending_output(&handle), None);
    assert_eq!(uploads.new_upload(1, &handle, 3, true), Ok(()));
    assert_eq!(uploads.take_pending_output(&handle), Some(ENCRYPTED_FILE_MAGIC_NUMBER.to_vec()));
    assert_eq!(uploads.accept_chunk(&handle, 0, chunk(3, 8)), Ok(()));
    assert_eq!(uploads.take_pending_output(&handle), Some(chunk(3, 8)));
    assert_eq!(uploads.take_pending_output(&handle), Some(Vec::new()));
    assert_eq!(uploads.get_active_upload(&handle).unwrap().written_bytes, 3);
}

#[test]
fn five_mebibytes_in_three_chunks_out_of_order() {
    let file_size = 5 * MIB;
    assert_eq!(calc_file_chunk_count(file_size), 3);

    let mut uploads = manager();
    let handle = String::from("q1w2e3r4t5y6u7i8");
    assert_eq!(uploads.new_upload(42, &handle, file_size, true), Ok(()));

    // The header goes to the file at once.
    let mut file: Vec<u8> = Vec::new();
    file.extend(uploads.take_pending_output(&handle).unwrap());
    assert_eq!(file, ENCRYPTED_FILE_MAGIC_NUMBER.to_vec());

    assert_eq!(uploads.accept_chunk(&handle, 1, chunk(CHUNK_DATA_SIZE, 0xB1)), Ok(()));
    {
        let upload = uploads.get_active_upload(&handle).unwrap();
        assert_eq!(upload.written_bytes, 0);
        assert_eq!(upload.buffered_chunks.len(), 1);
    }
    assert_eq!(uploads.take_pending_output(&handle), Some(Vec::new()));

    // Chunk 0 fills the gap: it and chunk 1 are written in one call.
    assert_eq!(uploads.accept_chunk(&handle, 0, chunk(CHUNK_DATA_SIZE, 0xA0)), Ok(()));
    {
        let upload = uploads.get_active_upload(&handle).unwrap();
        assert_eq!(upload.written_bytes, 4 * MIB);
        assert_eq!(upload.prev_written_chunk_id, 1);
        assert!(upload.buffered_chunks.is_empty());
    }
    let flushed = uploads.take_pending_output(&handle).unwrap();
    assert_eq!(flushed.len(), 2 * (CHUNK_DATA_SIZE + OVERHEAD));
    file.extend(flushed);

    assert_eq!(uploads.accept_chunk(&handle, 2, chunk(MIB as usize, 0xC2)), Ok(()));
    assert_eq!(uploads.get_active_upload(&handle).unwrap().written_bytes, file_size);

    let finalised = uploads.finalise_upload(&handle).unwrap();
    assert_eq!(finalised.user_id, 42);
    assert_eq!(finalised.upload_file_name, "q1w2e3r4t5y6u7i8.tef");
    assert_eq!(finalised.container_size, calc_encrypted_file_size(file_size));
    assert_eq!(finalised.container_size, 5243016);

    file.extend(finalised.remaining_output.iter());
    let mut expected = ENCRYPTED_FILE_MAGIC_NUMBER.to_vec();
    expected.extend(chunk(CHUNK_DATA_SIZE, 0xA0));
    expected.extend(chunk(CHUNK_DATA_SIZE, 0xB1));
    expected.extend(chunk(MIB as usize, 0xC2));
    assert_eq!(file.len() as u64, finalised.container_size);
    assert_eq!(file, expected);

    assert!(!uploads.is_handle_valid(&handle));
    assert_eq!(finalised.complete(true), Ok(5243016));
}
