//! The downloads in progress, by handle.
//!
//! A stored container is read chunk by chunk. The first read of a container
//! opens it, and while reads keep coming it stays open; a container that
//! nobody has read for [`ACTIVE_DOWNLOAD_EXPIRY_TIME_MS`] is closed again.
//! The registry keeps, for each open container, its size and the time of
//! its last read. Time is a count of milliseconds that the caller reads
//! from its clock and hands in.

use dashmap::DashMap;
use vstd::prelude::*;
use crate::constants::{
    ACTIVE_DOWNLOAD_EXPIRY_TIME_MS, ENCRYPTED_CHUNK_SIZE, ENCRYPTED_FILE_HEADER_SIZE,
};
use crate::errors::TransferError;
use crate::registry::{entries, new_table, table_get, table_insert, table_remove};

verus! {

/// Where chunk `chunk_id` begins in a container: after the header and the
/// chunks before it, all of them full.
pub open spec fn chunk_read_offset(chunk_id: u64) -> nat {
    (chunk_id * ENCRYPTED_CHUNK_SIZE + ENCRYPTED_FILE_HEADER_SIZE) as nat
}

/// How many bytes of a container of `file_size` bytes belong to the chunk
/// that begins at `read_offset`: a full chunk, or what is left of the file.
pub open spec fn chunk_read_size(file_size: u64, read_offset: nat) -> nat {
    if file_size - read_offset < ENCRYPTED_CHUNK_SIZE {
        (file_size - read_offset) as nat
    } else {
        ENCRYPTED_CHUNK_SIZE as nat
    }
}

/// The bytes of a container to read for one chunk.
#[derive(Debug, Clone, Copy, PartialEq, Eq, Structural)]
pub struct ChunkRange {
    pub read_offset: u64,
    pub read_size: u64,
}

/// The byte range of chunk `chunk_id` in a container of `file_size` bytes,
/// unless the chunk begins past the end of the container.
pub open spec fn chunk_range(file_size: u64, chunk_id: u64) -> Result<ChunkRange, TransferError> {
    let read_offset = chunk_read_offset(chunk_id);
    if read_offset > file_size {
        Err(TransferError::ChunkOutOfRange)
    } else {
        Ok(
            ChunkRange {
                read_offset: read_offset as u64,
                read_size: chunk_read_size(file_size, read_offset) as u64,
            },
        )
    }
}

/// Computes the byte range of chunk `chunk_id` in a container of `file_size`
/// bytes.
pub fn calc_chunk_range(file_size: u64, chunk_id: u64) -> (range: Result<ChunkRange, TransferError>)
    ensures
        range == chunk_range(file_size, chunk_id),
        range matches Ok(r) ==> r.read_offset + r.read_size <= file_size,
{
    // Calculate read size and offset which ignores the chunk header
    let enc_chunk_size = ENCRYPTED_CHUNK_SIZE as u128;
    let enc_file_header_size = ENCRYPTED_FILE_HEADER_SIZE as u128;
    assert(chunk_id * ENCRYPTED_CHUNK_SIZE <= u64::MAX * 2097196) by (nonlinear_arith)
        requires
            chunk_id <= u64::MAX,
            ENCRYPTED_CHUNK_SIZE == 2097196,
    ;
    let read_offset = (chunk_id as u128) * enc_chunk_size + enc_file_header_size;

    // Validate read offset
    if read_offset > file_size as u128 {
        return Err(TransferError::ChunkOutOfRange);
    }
    let read_offset = read_offset as u64;
    let left = file_size - read_offset;
    let read_size = if left < ENCRYPTED_CHUNK_SIZE as u64 {
        left
    } else {
        ENCRYPTED_CHUNK_SIZE as u64
    };
    Ok(ChunkRange { read_offset, read_size })
}

/// The mathematical state of a download.
pub ghost struct DownloadState {
    /// Size of the container, as it was when the download was opened.
    pub file_size: u64,
    /// The time of the last read.
    pub last_read_ms: u64,
}

/// The downloads after the one under `handle`, of a container of
/// `file_size` bytes, was read at `now_ms`.
pub open spec fn after_read(
    downloads: Map<Seq<char>, DownloadState>,
    handle: Seq<char>,
    file_size: u64,
    now_ms: u64,
) -> Map<Seq<char>, DownloadState> {
    downloads.insert(handle, DownloadState { file_size, last_read_ms: now_ms })
}

/// The download under `handle` is due to be closed at `now_ms`: the expiry
/// time has passed since it was last read.
pub open spec fn is_expired(
    downloads: Map<Seq<char>, DownloadState>,
    handle: Seq<char>,
    now_ms: u64,
) -> bool {
    downloads.contains_key(handle) && now_ms - downloads[handle].last_read_ms
        >= ACTIVE_DOWNLOAD_EXPIRY_TIME_MS
}

/// The downloads after the one under `handle` was checked at `now_ms`: it is
/// gone if it was due to be closed.
pub open spec fn after_check(
    downloads: Map<Seq<char>, DownloadState>,
    handle: Seq<char>,
    now_ms: u64,
) -> Map<Seq<char>, DownloadState> {
    if is_expired(downloads, handle, now_ms) {
        downloads.remove(handle)
    } else {
        downloads
    }
}

/// Eviction. A download that is not read for longer than the expiry time is
/// gone after the next check.
pub proof fn lemma_idle_download_is_evicted(
    downloads: Map<Seq<char>, DownloadState>,
    handle: Seq<char>,
    file_size: u64,
    read_ms: u64,
    check_ms: u64,
)
    requires
        check_ms - read_ms > ACTIVE_DOWNLOAD_EXPIRY_TIME_MS,
    ensures
        !after_check(
            after_read(downloads, handle, file_size, read_ms),
            handle,
            check_ms,
        ).contains_key(handle),
{
}

/// Survival. A read resets the clock: a download that was read less than
/// the expiry time before a check is still there after it, however long ago
/// the read before that was.
pub proof fn lemma_read_download_survives(
    downloads: Map<Seq<char>, DownloadState>,
    handle: Seq<char>,
    file_size: u64,
    read_ms: u64,
    check_ms: u64,
)
    requires
        check_ms - read_ms < ACTIVE_DOWNLOAD_EXPIRY_TIME_MS,
    ensures
        after_check(after_read(downloads, handle, file_size, read_ms), handle, check_ms)
            == after_read(downloads, handle, file_size, read_ms),
        after_check(
            after_read(downloads, handle, file_size, read_ms),
            handle,
            check_ms,
        ).contains_key(handle),
{
}

/// What a request for chunk `chunk_id` under `handle` is answered with.
/// `opened` is the size of the stored container if the caller has just
/// opened it, and `None` if it has not or could not.
pub open spec fn read_outcome(
    downloads: Map<Seq<char>, DownloadState>,
    handle: Seq<char>,
    chunk_id: u64,
    opened: Option<u64>,
) -> Result<ChunkRange, TransferError> {
    if downloads.contains_key(handle) {
        chunk_range(downloads[handle].file_size, chunk_id)
    } else {
        match opened {
            Some(file_size) => chunk_range(file_size, chunk_id),
            None => Err(TransferError::FileNotFound),
        }
    }
}

/// The downloads after a request at `now_ms` for chunk `chunk_id` under
/// `handle`. A container that was just opened is registered, whatever
/// becomes of the request; a request that is granted counts as a read.
pub open spec fn after_read_request(
    downloads: Map<Seq<char>, DownloadState>,
    handle: Seq<char>,
    chunk_id: u64,
    opened: Option<u64>,
    now_ms: u64,
) -> Map<Seq<char>, DownloadState> {
    if downloads.contains_key(handle) {
        if chunk_range(downloads[handle].file_size, chunk_id) is Ok {
            after_read(downloads, handle, downloads[handle].file_size, now_ms)
        } else {
            downloads
        }
    } else {
        match opened {
            Some(file_size) => after_read(downloads, handle, file_size, now_ms),
            None => downloads,
        }
    }
}

/// One download in progress: an open container.
#[derive(Debug, Clone, Copy, PartialEq, Eq, Structural)]
pub struct ActiveDownload {
    /// Size of the container, as it was when the download was opened.
    pub file_size: u64,
}

/// The registry of downloads in progress.
pub struct DownloadsManager {
    user_files_root_directory: String,
    /// Maps a file's handle string to the size of its open container.
    active_downloads_map: DashMap<String, u64>,
    /// Maps a file's handle to the time of the read from which its expiry
    /// counts.
    download_expiry_task_map: DashMap<String, u64>,
}

impl View for DownloadsManager {
    type V = Map<Seq<char>, DownloadState>;

    /// The state of each download in progress, by handle.
    closed spec fn view(&self) -> Map<Seq<char>, DownloadState> {
        let sizes = entries(self.active_downloads_map);
        let reads = entries(self.download_expiry_task_map);
        Map::new(
            |handle: Seq<char>| sizes.contains_key(handle),
            |handle: Seq<char>|
                DownloadState { file_size: sizes[handle], last_read_ms: reads[handle] },
        )
    }
}

impl DownloadsManager {
    /// Every download has a time of last read, and nothing else has.
    pub closed spec fn wf(&self) -> bool {
        entries(self.active_downloads_map).dom() == entries(self.download_expiry_task_map).dom()
    }

/// Directory of the containers in permanent storage.
    pub closed spec fn spec_user_files_root_directory(&self) -> Seq<char> {
        self.user_files_root_directory@
    }

/// A registry without downloads.
    pub fn new(user_files_root_directory: String) -> (manager: Self)
        ensures
            manager.wf(),
            manager@ == Map::<Seq<char>, DownloadState>::empty(),
            manager.spec_user_files_root_directory() == user_files_root_directory@,
    {
        let manager = Self {
            user_files_root_directory,
            active_downloads_map: new_table(),
            download_expiry_task_map: new_table(),
        };
        assert(manager@ =~= Map::<Seq<char>, DownloadState>::empty());
        manager
    }

    /// Directory of the containers in permanent storage.
    pub fn user_files_root_directory(&self) -> (directory: &String)
        ensures
            directory@ == self.spec_user_files_root_directory(),
    {
        &self.user_files_root_directory
    }

    /// The download in progress under `handle`, if there is one.
    pub fn get_download(&self, handle: &String) -> (found: Option<ActiveDownload>)
        ensures
            found == (if self@.contains_key(handle@) {
                Some(ActiveDownload { file_size: self@[handle@].file_size })
            } else {
                None
            }),
    {
        match table_get(&self.active_downloads_map, handle) {
            Some(file_size) => Some(ActiveDownload { file_size }),
            None => None,
        }
    }

    /// Counts the expiry of the download under `handle` from `now_ms`, in
    /// place of the time that it counted from before. Returns whether there
    /// is such a download.
    pub fn set_download_for_expiry(&mut self, handle: String, now_ms: u64) -> (active: bool)
        requires
            old(self).wf(),
        ensures
            final(self).wf(),
            final(self).spec_user_files_root_directory() == old(
                self,
            ).spec_user_files_root_directory(),
            active == old(self)@.contains_key(handle@),
            final(self)@ == (if active {
                after_read(old(self)@, handle@, old(self)@[handle@].file_size, now_ms)
            } else {
                old(self)@
            }),
    {
        if table_get(&self.active_downloads_map, &handle).is_none() {
            return false;
        }
        table_insert(&mut self.download_expiry_task_map, handle, now_ms);
        proof {
            assert(entries(self.active_downloads_map).dom() =~= entries(
                self.download_expiry_task_map,
            ).dom());
            assert(self@ =~= after_read(
                old(self)@,
                handle@,
                old(self)@[handle@].file_size,
                now_ms,
            ));
        }
        true
    }

    /// Registers the download of the container under `handle`, given what
    /// came of opening it: `opened` is its size, or `None` if no such
    /// container could be opened.
    pub fn open_file_for_download(
        &mut self,
        user_id: u64,
        handle: &String,
        opened: Option<u64>,
        now_ms: u64,
    ) -> (result: Result<(), TransferError>)
        requires
            old(self).wf(),
        ensures
            final(self).wf(),
            final(self).spec_user_files_root_directory() == old(
                self,
            ).spec_user_files_root_directory(),
            match opened {
                Some(file_size) => {
                    &&& result == Ok::<(), TransferError>(())
                    &&& final(self)@ == after_read(old(self)@, handle@, file_size, now_ms)
                },
                None => {
                    &&& result == Err::<(), TransferError>(TransferError::FileNotFound)
                    &&& final(self)@ == old(self)@
                },
            },
    {
        let file_size = match opened {
            Some(file_size) => file_size,
            None => {
                return Err(TransferError::FileNotFound);
            },
        };
        table_insert(&mut self.active_downloads_map, handle.clone(), file_size);

        // Set download for expiry
        table_insert(&mut self.download_expiry_task_map, handle.clone(), now_ms);
        proof {
            assert(entries(self.active_downloads_map).dom() =~= entries(
                self.download_expiry_task_map,
            ).dom());
            assert(self@ =~= after_read(old(self)@, handle@, file_size, now_ms));
        }
        Ok(())
    }

    /// The download under `handle`: the one in progress, or else a new one
    /// that is registered as [`Self::open_file_for_download`] does.
    pub fn get_download_or_start(
        &mut self,
        user_id: u64,
        handle: &String,
        opened: Option<u64>,
        now_ms: u64,
    ) -> (result: Result<ActiveDownload, TransferError>)
        requires
            old(self).wf(),
        ensures
            final(self).wf(),
            final(self).spec_user_files_root_directory() == old(
                self,
            ).spec_user_files_root_directory(),
            old(self)@.contains_key(handle@) ==> {
                &&& result == Ok::<ActiveDownload, TransferError>(
                    ActiveDownload { file_size: old(self)@[handle@].file_size },
                )
                &&& final(self)@ == old(self)@
            },
            !old(self)@.contains_key(handle@) ==> match opened {
                Some(file_size) => {
                    &&& result == Ok::<ActiveDownload, TransferError>(ActiveDownload { file_size })
                    &&& final(self)@ == after_read(old(self)@, handle@, file_size, now_ms)
                },
                None => {
                    &&& result == Err::<ActiveDownload, TransferError>(TransferError::FileNotFound)
                    &&& final(self)@ == old(self)@
                },
            },
    {
        // Try get download from the map and return it
        if let Some(download) = self.get_download(handle) {
            return Ok(download);
        }
        // Start new download

        match self.open_file_for_download(user_id, handle, opened, now_ms) {
            Ok(()) => {},
            Err(error) => {
                return Err(error);
            },
        }

        // Try get download from the map again
        match self.get_download(handle) {
            Some(download) => Ok(download),
            None => Err(TransferError::FileNotFound),
        }
    }

    /// Answers a request at `now_ms` for chunk `chunk_id` of the container
    /// under `handle` with the bytes to read. A download that is not in
    /// progress is started from `opened`, and a request that is granted
    /// resets the expiry of the download.
    pub fn try_read_chunk_as_stream(
        &mut self,
        user_id: u64,
        handle: &String,
        chunk_id: u64,
        opened: Option<u64>,
        now_ms: u64,
    ) -> (result: Result<ChunkRange, TransferError>)
        requires
            old(self).wf(),
        ensures
            final(self).wf(),
            final(self).spec_user_files_root_directory() == old(
                self,
            ).spec_user_files_root_directory(),
            result == read_outcome(old(self)@, handle@, chunk_id, opened),
            final(self)@ == after_read_request(old(self)@, handle@, chunk_id, opened, now_ms),
            result matches Ok(range) ==> final(self)@.contains_key(handle@) && range.read_offset
                + range.read_size <= final(self)@[handle@].file_size,
    {
        // Try get download from the map
        let download = match self.get_download_or_start(user_id, handle, opened, now_ms) {
            Ok(download) => download,
            Err(error) => {
                return Err(error);
            },
        };
        let range = match calc_chunk_range(download.file_size, chunk_id) {
            Ok(range) => range,
            Err(error) => {
                return Err(error);
            },
        };

        // Set download for expiry (resets timer)
        self.set_download_for_expiry(handle.clone(), now_ms);
        proof {
            assert(self@ =~= after_read_request(old(self)@, handle@, chunk_id, opened, now_ms));
        }
        Ok(range)
    }

    /// Checks the download under `handle` at `now_ms`, and closes it if the
    /// expiry time has passed since its last read. Returns whether it was
    /// closed.
    pub fn expire_download(&mut self, handle: &String, now_ms: u64) -> (expired: bool)
        requires
            old(self).wf(),
        ensures
            final(self).wf(),
            final(self).spec_user_files_root_directory() == old(
                self,
            ).spec_user_files_root_directory(),
            expired == is_expired(old(self)@, handle@, now_ms),
            final(self)@ == after_check(old(self)@, handle@, now_ms),
    {
        let last_read_ms = match table_get(&self.download_expiry_task_map, handle) {
            Some(last_read_ms) => last_read_ms,
            None => {
                return false;
            },
        };
        if now_ms < last_read_ms || now_ms - last_read_ms < ACTIVE_DOWNLOAD_EXPIRY_TIME_MS as u64 {
            return false;
        }
        table_remove(&mut self.active_downloads_map, handle);
        table_remove(&mut self.download_expiry_task_map, handle);
        proof {
            assert(entries(self.active_downloads_map).dom() =~= entries(
                self.download_expiry_task_map,
            ).dom());
            assert(self@ =~= after_check(old(self)@, handle@, now_ms));
        }
        true
    }
}

} // verus!
