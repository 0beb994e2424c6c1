use treasury::constants::{
    ACTIVE_DOWNLOAD_EXPIRY_TIME_MS, ENCRYPTED_CHUNK_SIZE, ENCRYPTED_FILE_HEADER_SIZE,
};
use treasury::download_utils::{calc_chunk_range, ActiveDownload, ChunkRange, DownloadsManager};
use treasury::errors::TransferError;
use treasury::formats::calc_encrypted_file_size;

const FULL: u64 = ENCRYPTED_CHUNK_SIZE as u64;
const HEADER: u64 = ENCRYPTED_FILE_HEADER_SIZE as u64;
const IDLE: u64 = ACTIVE_DOWNLOAD_EXPIRY_TIME_MS as u64;

fn manager() -> DownloadsManager {
    DownloadsManager::new(String::from("../userfiles"))
}

#[test]
fn the_first_chunk_begins_after_the_header() {
    assert_eq!(
        calc_chunk_range(5243016, 0),
        Ok(ChunkRange { read_offset: 4, read_size: 2097196 })
    );
    assert_eq!(calc_chunk_range(100, 0), Ok(ChunkRange { read_offset: 4, read_size: 96 }));
}

#[test]
fn later_chunks_begin_after_the_full_chunks_before_them() {
    assert_eq!(
        calc_chunk_range(5243016, 1),
        Ok(ChunkRange { read_offset: 2097200, read_size: 2097196 })
    );
    assert_eq!(
        calc_chunk_range(5243016, 2),
        Ok(ChunkRange { read_offset: 4194396, read_size: 1048620 })
    );
}

#[test]
fn the_ranges_of_a_container_cover_it() {
    let size = calc_encrypted_file_size(5 * 1024 * 1024);
    let mut end = HEADER;
    for chunk_id in 0..3 {
        let range = calc_chunk_range(size, chunk_id).unwrap();
        assert_eq!(range.read_offset, end);
        end = range.read_offset + range.read_size;
    }
    assert_eq!(end, size);
}

#[test]
fn a_chunk_that_begins_at_the_end_is_empty() {
    assert_eq!(calc_chunk_range(4, 0), Ok(ChunkRange { read_offset: 4, read_size: 0 }));
    assert_eq!(
        calc_chunk_range(HEADER + FULL, 1),
        Ok(ChunkRange { read_offset: HEADER + FULL, read_size: 0 })
    );
}

#[test]
fn a_chunk_that_begins_past_the_end_is_out_of_range() {
    assert_eq!(calc_chunk_range(3, 0), Err(TransferError::ChunkOutOfRange));
    assert_eq!(calc_chunk_range(0, 0), Err(TransferError::ChunkOutOfRange));
    assert_eq!(calc_chunk_range(HEADER + FULL - 1, 1), Err(TransferError::ChunkOutOfRange));
    assert_eq!(calc_chunk_range(5243016, 3), Err(TransferError::ChunkOutOfRange));
}

#[test]
fn a_chunk_id_too_large_for_any_container_is_out_of_range() {
    assert_eq!(calc_chunk_range(u64::MAX, u64::MAX), Err(TransferError::ChunkOutOfRange));
    assert_eq!(calc_chunk_range(u64::MAX, u64::MAX / FULL + 1), Err(TransferError::ChunkOutOfRange));
    assert_eq!(
        calc_chunk_range(u64::MAX, 1 << 40),
        Ok(ChunkRange { read_offset: (1 << 40) * FULL + HEADER, read_size: FULL })
    );
}

#[test]
fn a_new_manager_has_no_download() {
    let downloads = manager();
    assert_eq!(downloads.user_files_root_directory(), "../userfiles");
    assert_eq!(downloads.get_download(&String::from("a")), None);
}

#[test]
fn the_first_read_of_a_stored_file_opens_a_download() {
    let mut downloads = manager();
    let handle = String::from("q1w2e3r4t5y6u7i8");
    let file_size = 5243016;

    let range = downloads.try_read_chunk_as_stream(1, &handle, 0, Some(file_size), 1000);
    assert_eq!(range, Ok(ChunkRange { read_offset: HEADER, read_size: FULL }));
    assert_eq!(range.unwrap().read_size, FULL.min(file_size - HEADER));
    assert_eq!(downloads.get_download(&handle), Some(ActiveDownload { file_size }));
}

#[test]
fn a_file_that_cannot_be_opened_is_not_found() {
    let mut downloads = manager();
    let handle = String::from("missing");
    assert_eq!(
        downloads.try_read_chunk_as_stream(1, &handle, 0, None, 0),
        Err(TransferError::FileNotFound)
    );
    assert_eq!(downloads.get_download(&handle), None);
    assert_eq!(
        downloads.open_file_for_download(1, &handle, None, 0),
        Err(TransferError::FileNotFound)
    );
    assert_eq!(
        downloads.get_download_or_start(1, &handle, None, 0),
        Err(TransferError::FileNotFound)
    );
    assert_eq!(downloads.get_download(&handle), None);
}

#[test]
fn an_open_download_keeps_the_size_it_was_opened_with() {
    let mut downloads = manager();
    let handle = String::from("kept");
    assert_eq!(downloads.open_file_for_download(1, &handle, Some(100), 0), Ok(()));
    // What is handed in for a download that is open does not count.
    assert_eq!(
        downloads.get_download_or_start(1, &handle, Some(999), 5),
        Ok(ActiveDownload { file_size: 100 })
    );
    assert_eq!(
        downloads.try_read_chunk_as_stream(1, &handle, 0, None, 5),
        Ok(ChunkRange { read_offset: 4, read_size: 96 })
    );
    assert_eq!(downloads.get_download(&handle), Some(ActiveDownload { file_size: 100 }));
}

#[test]
fn a_chunk_past_the_end_of_a_new_download_still_opens_it() {
    let mut downloads = manager();
    let handle = String::from("short");
    assert_eq!(
        downloads.try_read_chunk_as_stream(1, &handle, 7, Some(100), 0),
        Err(TransferError::ChunkOutOfRange)
    );
    assert_eq!(downloads.get_download(&handle), Some(ActiveDownload { file_size: 100 }));
    assert!(downloads.expire_download(&handle, IDLE));
}

#[test]
fn an_idle_download_is_closed() {
    let mut downloads = manager();
    let handle = String::from("idle");
    assert!(downloads.try_read_chunk_as_stream(1, &handle, 0, Some(100), 500).is_ok());

    assert!(downloads.expire_download(&handle, 500 + IDLE + 1));
    assert_eq!(downloads.get_download(&handle), None);
    // There is nothing left to close.
    assert!(!downloads.expire_download(&handle, 500 + 2 * IDLE));
}

#[test]
fn a_download_is_closed_when_the_expiry_time_has_just_passed() {
    let mut downloads = manager();
    let handle = String::from("edge");
    assert!(downloads.try_read_chunk_as_stream(1, &handle, 0, Some(100), 500).is_ok());

    assert!(!downloads.expire_download(&handle, 500 + IDLE - 1));
    assert!(downloads.get_download(&handle).is_some());
    assert!(downloads.expire_download(&handle, 500 + IDLE));
    assert!(downloads.get_download(&handle).is_none());
}

#[test]
fn a_read_just_before_expiry_keeps_the_download() {
    let mut downloads = manager();
    let handle = String::from("busy");
    assert!(downloads.try_read_chunk_as_stream(1, &handle, 0, Some(100), 0).is_ok());
    // One instant before the download is due, it is read again.
    assert!(downloads.try_read_chunk_as_stream(1, &handle, 0, None, IDLE - 1).is_ok());

    // The check that the first read called for finds it in use.
    assert!(!downloads.expire_download(&handle, IDLE));
    assert_eq!(downloads.get_download(&handle), Some(ActiveDownload { file_size: 100 }));
    // Only the last read counts.
    assert!(!downloads.expire_download(&handle, 2 * IDLE - 2));
    assert!(downloads.expire_download(&handle, 2 * IDLE - 1));
    assert_eq!(downloads.get_download(&handle), None);
}

#[test]
fn a_refused_read_does_not_keep_a_download_open() {
    let mut downloads = manager();
    let handle = String::from("refused");
    assert!(downloads.try_read_chunk_as_stream(1, &handle, 0, Some(100), 0).is_ok());
    assert_eq!(
        downloads.try_read_chunk_as_stream(1, &handle, 9, None, IDLE - 1),
        Err(TransferError::ChunkOutOfRange)
    );
    assert!(downloads.expire_download(&handle, IDLE));
}

#[test]
fn a_clock_that_runs_backwards_closes_nothing() {
    let mut downloads = manager();
    let handle = String::from("clock");
    assert!(downloads.try_read_chunk_as_stream(1, &handle, 0, Some(100), u64::MAX).is_ok());
    assert!(!downloads.expire_download(&handle, 0));
    assert!(!downloads.expire_download(&handle, u64::MAX));
    assert!(downloads.get_download(&handle).is_some());
}

#[test]
fn the_expiry_is_set_only_for_downloads_in_progress() {
    let mut downloads = manager();
    let handle = String::from("timer");
    assert!(!downloads.set_download_for_expiry(handle.clone(), 0));
    assert_eq!(downloads.get_download(&handle), None);

    assert_eq!(downloads.open_file_for_download(1, &handle, Some(50), 0), Ok(()));
    assert!(downloads.set_download_for_expiry(handle.clone(), 7000));
    assert!(!downloads.expire_download(&handle, IDLE));
    assert!(downloads.expire_download(&handle, 7000 + IDLE));
}

#[test]
fn downloads_expire_one_by_one() {
    let mut downloads = manager();
    let first = String::from("first");
    let second = String::from("second");
    assert!(downloads.try_read_chunk_as_stream(1, &first, 0, Some(100), 0).is_ok());
    assert!(downloads.try_read_chunk_as_stream(2, &second, 0, Some(200), 4000).is_ok());

    assert!(downloads.expire_download(&first, IDLE));
    assert!(!downloads.expire_download(&second, IDLE));
    assert_eq!(downloads.get_download(&first), None);
    assert_eq!(downloads.get_download(&second), Some(ActiveDownload { file_size: 200 }));
}
