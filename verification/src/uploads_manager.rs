//! The uploads in progress, by handle.
//!
//! The registry keeps each upload in a slot of its own and finds the slot of
//! a handle in a table. It decides what becomes of a request; creating,
//! writing and moving the files is left to the caller, who reports how that
//! went and takes the bytes that are due to a file out of the registry.

use dashmap::DashMap;
use vstd::prelude::*;
use vstd::string::StringExecFns;
use crate::constants::{
    ENCRYPTED_FILE_MAGIC_NUMBER, MAX_FILE_SIZE, TREASURY_FILE_EXTENSION,
};
use crate::errors::TransferError;
use crate::formats::{
    calc_encrypted_file_size, encrypted_file_size, lemma_encrypted_file_size_bounded,
};
use crate::registry::{entries, new_table, table_get, table_insert, table_remove};
use crate::upload_utils::{ActiveUpload, UploadState};

verus! {

/// Name of the container file of `handle`: the handle and the extension.
pub open spec fn container_file_name(handle: Seq<char>) -> Seq<char> {
    handle + TREASURY_FILE_EXTENSION@
}

/// Name of the container file of `handle`.
pub fn file_name_of(handle: &String) -> (name: String)
    ensures
        name@ == container_file_name(handle@),
{
    handle.clone().concat(TREASURY_FILE_EXTENSION)
}

/// The header that opens every container.
pub open spec fn container_header() -> Seq<u8> {
    ENCRYPTED_FILE_MAGIC_NUMBER@
}

/// An upload as it is registered: nothing but the container's header has
/// gone to the writer.
pub open spec fn opened_upload(user_id: u64, handle: Seq<char>, file_size: nat) -> UploadState {
    UploadState {
        pending_output: container_header(),
        ..UploadState::fresh(user_id, container_file_name(handle), file_size)
    }
}

/// An upload that has left the registry, with what is needed to put its
/// container into permanent storage.
pub struct FinalisedUpload {
    pub user_id: u64,
    /// Name of the file, in the upload directory now and in permanent
    /// storage afterwards.
    pub upload_file_name: String,
    /// The unencrypted size of the file.
    pub file_size: u64,
    /// Size of the container that the declared file size calls for.
    pub container_size: u64,
    /// Bytes that are still due to the file before it is closed.
    pub remaining_output: Vec<u8>,
}

impl FinalisedUpload {
    /// The last word on a finalised upload, once it is known whether the
    /// container was `moved` into permanent storage: its size, or the
    /// failure.
    pub fn complete(self, moved: bool) -> (result: Result<u64, TransferError>)
        ensures
            result == (if moved {
                Ok::<u64, TransferError>(self.container_size)
            } else {
                Err::<u64, TransferError>(TransferError::FinalizeIoError)
            }),
    {
        if moved {
            Ok(self.container_size)
        } else {
            Err(TransferError::FinalizeIoError)
        }
    }
}

/// What finalising `state` hands over, given that it can go ahead.
pub open spec fn finalised(state: UploadState, upload: FinalisedUpload) -> bool {
    &&& upload.user_id == state.user_id
    &&& upload.upload_file_name@ == state.upload_file_name
    &&& upload.file_size == state.file_size
    &&& upload.container_size == encrypted_file_size(state.file_size)
    &&& upload.remaining_output@ == state.pending_output
}

/// The registry of uploads in progress.
pub struct UploadsManager {
    user_files_root_directory: String,
    user_upload_directory: String,
    /// Maps a file's handle string to the slot of its active upload.
    active_uploads_map: DashMap<String, u64>,
    /// The active uploads, each in the slot that its handle maps to.
    uploads: Vec<Option<ActiveUpload>>,
}

impl View for UploadsManager {
    type V = Map<Seq<char>, UploadState>;

    /// The state of each upload in progress, by handle.
    closed spec fn view(&self) -> Map<Seq<char>, UploadState> {
        let table = entries(self.active_uploads_map);
        Map::new(
            |handle: Seq<char>| table.contains_key(handle),
            |handle: Seq<char>| self.uploads[table[handle] as int]->0@,
        )
    }
}

impl UploadsManager {
    /// Every handle has a slot of its own, the upload in it is well-formed,
    /// and no slot holds an upload that no handle leads to.
    pub closed spec fn wf(&self) -> bool {
        let table = entries(self.active_uploads_map);
        &&& forall|handle: Seq<char>| #[trigger]
            table.contains_key(handle) ==> {
                &&& table[handle] < self.uploads.len()
                &&& self.uploads[table[handle] as int] is Some
                &&& self.uploads[table[handle] as int]->0@.wf()
            }
        &&& forall|first: Seq<char>, second: Seq<char>|
            #![trigger table[first], table[second]]
            table.contains_key(first) && table.contains_key(second) && first != second
                ==> table[first] != table[second]
        &&& forall|slot: int|
            0 <= slot < self.uploads.len() && (#[trigger] self.uploads[slot]) is Some
                ==> self.slot_is_taken(slot)
    }

    /// Some handle maps to `slot`.
    pub closed spec fn slot_is_taken(&self, slot: int) -> bool {
        exists|handle: Seq<char>|
            #![trigger entries(self.active_uploads_map)[handle]]
            entries(self.active_uploads_map).contains_key(handle) && entries(
                self.active_uploads_map,
            )[handle] == slot
    }

    /// In a well-formed registry every upload is well-formed.
    pub proof fn lemma_uploads_wf(&self)
        requires
            self.wf(),
        ensures
            forall|handle: Seq<char>| #[trigger]
                self@.contains_key(handle) ==> self@[handle].wf(),
    {
    }

/// Directory of the containers in permanent storage.
    pub closed spec fn spec_user_files_root_directory(&self) -> Seq<char> {
        self.user_files_root_directory@
    }

/// Directory of the temporary files of uploads in progress.
    pub closed spec fn spec_user_upload_directory(&self) -> Seq<char> {
        self.user_upload_directory@
    }

/// A registry without uploads.
    pub fn new(user_files_root_directory: String, user_upload_directory: String) -> (manager: Self)
        ensures
            manager.wf(),
            manager@ == Map::<Seq<char>, UploadState>::empty(),
            manager.spec_user_files_root_directory() == user_files_root_directory@,
            manager.spec_user_upload_directory() == user_upload_directory@,
    {
        let manager = Self {
            user_files_root_directory,
            user_upload_directory,
            active_uploads_map: new_table(),
            uploads: Vec::new(),
        };
        assert(manager@ =~= Map::<Seq<char>, UploadState>::empty());
        manager
    }

    /// Directory of the containers in permanent storage.
    pub fn user_files_root_directory(&self) -> (directory: &String)
        ensures
            directory@ == self.spec_user_files_root_directory(),
    {
        &self.user_files_root_directory
    }

    /// Directory of the temporary files of uploads in progress.
    pub fn user_upload_directory(&self) -> (directory: &String)
        ensures
            directory@ == self.spec_user_upload_directory(),
    {
        &self.user_upload_directory
    }

/// Whether an upload is in progress under `handle`.
    pub fn is_handle_valid(&self, handle: &String) -> (valid: bool)
        ensures
            valid == self@.contains_key(handle@),
    {
        table_get(&self.active_uploads_map, handle).is_some()
    }

    /// A slot that holds no upload, added at the end if every slot is taken.
    fn free_slot(&mut self) -> (slot: usize)
        ensures
            slot < final(self).uploads.len(),
            final(self).uploads[slot as int] is None,
            final(self).uploads.len() >= old(self).uploads.len(),
            forall|i: int|
                0 <= i < old(self).uploads.len() ==> final(self).uploads[i] == old(self).uploads[i],
            forall|i: int|
                old(self).uploads.len() <= i < final(self).uploads.len()
                    ==> final(self).uploads[i] is None,
            final(self).active_uploads_map == old(self).active_uploads_map,
            final(self).user_files_root_directory == old(self).user_files_root_directory,
            final(self).user_upload_directory == old(self).user_upload_directory,
    {
        let mut slot: usize = 0;
        while slot < self.uploads.len()
            invariant
                slot <= self.uploads.len(),
                *self == *old(self),
            decreases self.uploads.len() - slot,
        {
            if self.uploads[slot].is_none() {
                return slot;
            }
            slot = slot + 1;
        }
        self.uploads.push(None);
        slot
    }

    /// Registers a new upload under `handle`, given whether its temporary
    /// file could be created. A new upload has the container's header
    /// waiting for the writer; an upload that was registered under the same
    /// handle is gone.
    pub fn new_upload(
        &mut self,
        user_id: u64,
        handle: &String,
        file_size: u64,
        file_created: bool,
    ) -> (result: Result<(), TransferError>)
        requires
            old(self).wf(),
            file_size <= MAX_FILE_SIZE,
        ensures
            final(self).wf(),
            final(self).spec_user_files_root_directory() == old(
                self,
            ).spec_user_files_root_directory(),
            final(self).spec_user_upload_directory() == old(self).spec_user_upload_directory(),
            result == (if file_created {
                Ok::<(), TransferError>(())
            } else {
                Err::<(), TransferError>(TransferError::IoError)
            }),
            final(self)@ == (if file_created {
                old(self)@.insert(handle@, opened_upload(user_id, handle@, file_size as nat))
            } else {
                old(self)@
            }),
    {
        if !file_created {
            return Err(TransferError::IoError);
        }
        let mut upload = ActiveUpload::new(user_id, file_name_of(handle), file_size);

        // Write header immediately
        upload.pending_output.push(ENCRYPTED_FILE_MAGIC_NUMBER[0]);
        upload.pending_output.push(ENCRYPTED_FILE_MAGIC_NUMBER[1]);
        upload.pending_output.push(ENCRYPTED_FILE_MAGIC_NUMBER[2]);
        upload.pending_output.push(ENCRYPTED_FILE_MAGIC_NUMBER[3]);
        proof {
            assert(upload@.pending_output =~= container_header());
            assert(upload@ == opened_upload(user_id, handle@, file_size as nat));
        }

        // Insert new active upload into the map
        let slot = match table_get(&self.active_uploads_map, handle) {
            Some(slot) => slot as usize,
            None => {
                let slot = self.free_slot();
                table_insert(&mut self.active_uploads_map, handle.clone(), slot as u64);
                slot
            },
        };
        self.uploads.set(slot, Some(upload));
        proof {
            assert(self@ =~= old(self)@.insert(
                handle@,
                opened_upload(user_id, handle@, file_size as nat),
            ));
            assert(entries(self.active_uploads_map)[handle@] == slot);
            assert forall|other: int|
                0 <= other < self.uploads.len() && (#[trigger] self.uploads[other]) is Some
                    && other != slot implies self.slot_is_taken(other) by {
                assert(other < old(self).uploads.len());
                assert(old(self).uploads[other] is Some);
                assert(old(self).slot_is_taken(other));
                let owner = choose|owner: Seq<char>|
                    #![trigger entries(old(self).active_uploads_map)[owner]]
                    entries(old(self).active_uploads_map).contains_key(owner) && entries(
                        old(self).active_uploads_map,
                    )[owner] == other;
                assert(entries(self.active_uploads_map)[owner] == other);
            }
        }
        Ok(())
    }

    /// The upload in progress under `handle`, if there is one.
    pub fn get_active_upload(&self, handle: &String) -> (found: Option<&ActiveUpload>)
        requires
            self.wf(),
        ensures
            match found {
                Some(upload) => self@.contains_key(handle@) && upload@ == self@[handle@],
                None => !self@.contains_key(handle@),
            },
    {
        match table_get(&self.active_uploads_map, handle) {
            Some(slot) => self.uploads[slot as usize].as_ref(),
            None => None,
        }
    }

    /// Takes in chunk `chunk_id` of the upload under `handle`: the upload
    /// accepts it or turns it away, and no other upload is touched.
    pub fn accept_chunk(&mut self, handle: &String, chunk_id: i64, data: Vec<u8>) -> (result:
        Result<(), TransferError>)
        requires
            old(self).wf(),
        ensures
            final(self).wf(),
            final(self).spec_user_files_root_directory() == old(
                self,
            ).spec_user_files_root_directory(),
            final(self).spec_user_upload_directory() == old(self).spec_user_upload_directory(),
            result == (if old(self)@.contains_key(handle@) {
                old(self)@[handle@].accept_outcome(chunk_id, data@)
            } else {
                Err(TransferError::UnknownHandle)
            }),
            final(self)@ == (if old(self)@.contains_key(handle@) {
                old(self)@.insert(handle@, old(self)@[handle@].accept(chunk_id, data@))
            } else {
                old(self)@
            }),
    {
        let slot = match table_get(&self.active_uploads_map, handle) {
            Some(slot) => slot as usize,
            None => {
                return Err(TransferError::UnknownHandle);
            },
        };
        let result = match &mut self.uploads[slot] {
            Some(upload) => upload.try_write_chunk(chunk_id, data),
            None => Err(TransferError::UnknownHandle),
        };
        proof {
            assert(self@ =~= old(self)@.insert(
                handle@,
                old(self)@[handle@].accept(chunk_id, data@),
            ));
        }
        result
    }

    /// Finalises the upload under `handle`, if it can be.
    ///
    /// The request is recorded in the upload, and only the first request for
    /// an upload is looked at. If every declared byte is then written and no
    /// chunk waits, the upload leaves the registry and is handed over to be
    /// put into permanent storage; otherwise it stays, and the answer says
    /// how many bytes are missing.
    pub fn finalise_upload(&mut self, handle: &String) -> (result: Result<
        FinalisedUpload,
        TransferError,
    >)
        requires
            old(self).wf(),
        ensures
            final(self).wf(),
            final(self).spec_user_files_root_directory() == old(
                self,
            ).spec_user_files_root_directory(),
            final(self).spec_user_upload_directory() == old(self).spec_user_upload_directory(),
            match result {
                Ok(upload) => {
                    &&& old(self)@.contains_key(handle@)
                    &&& old(self)@[handle@].finalise_outcome() is Ok
                    &&& finalised(old(self)@[handle@], upload)
                    &&& final(self)@ == old(self)@.remove(handle@)
                },
                Err(error) => if old(self)@.contains_key(handle@) {
                    &&& old(self)@[handle@].finalise_outcome() == Err::<(), TransferError>(error)
                    &&& final(self)@ == old(self)@.insert(
                        handle@,
                        old(self)@[handle@].finalise_requested(),
                    )
                } else {
                    &&& error == TransferError::UnknownHandle
                    &&& final(self)@ == old(self)@
                },
            },
            // The first request to finalise an upload that still lacks bytes
            // is told how many, and the upload stays.
            old(self)@.contains_key(handle@) && !old(self)@[handle@].finalise_in_progress && old(
                self,
            )@[handle@].written_bytes < old(self)@[handle@].file_size ==> {
                &&& result == Err::<FinalisedUpload, TransferError>(
                    TransferError::IncompleteUpload {
                        bytes_remaining: (old(self)@[handle@].file_size - old(
                            self,
                        )@[handle@].written_bytes) as u64,
                    },
                )
                &&& final(self)@.contains_key(handle@)
            },
    {
        // Ensure handle is valid
        let slot = match table_get(&self.active_uploads_map, handle) {
            Some(slot) => slot as usize,
            None => {
                return Err(TransferError::UnknownHandle);
            },
        };
        // Check if finalisation can proceed
        let outcome = match &mut self.uploads[slot] {
            Some(upload) => upload.begin_finalise(),
            None => Err(TransferError::UnknownHandle),
        };
        if let Err(error) = outcome {
            proof {
                assert(self@ =~= old(self)@.insert(
                    handle@,
                    old(self)@[handle@].finalise_requested(),
                ));
            }
            return Err(error);
        }
        // Get upload by removing it from the map

        table_remove(&mut self.active_uploads_map, handle);
        let removed = self.uploads[slot].take();
        proof {
            assert(self@ =~= old(self)@.remove(handle@));
            assert forall|other: int|
                0 <= other < self.uploads.len() && (#[trigger] self.uploads[other])
                    is Some implies self.slot_is_taken(other) by {
                assert(old(self).slot_is_taken(other));
                let owner = choose|owner: Seq<char>|
                    #![trigger entries(old(self).active_uploads_map)[owner]]
                    entries(old(self).active_uploads_map).contains_key(owner) && entries(
                        old(self).active_uploads_map,
                    )[owner] == other;
                assert(entries(self.active_uploads_map)[owner] == other);
            }
        }
        match removed {
            Some(upload) => {
                proof {
                    lemma_encrypted_file_size_bounded(upload.file_size as nat);
                }
                Ok(
                    FinalisedUpload {
                        user_id: upload.user_id,
                        upload_file_name: upload.upload_file_name,
                        file_size: upload.file_size,
                        container_size: calc_encrypted_file_size(upload.file_size),
                        remaining_output: upload.pending_output,
                    },
                )
            },
            None => Err(TransferError::UnknownHandle),
        }
    }

    /// Takes the bytes that are due to the file of the upload under
    /// `handle` out of the registry, if there is such an upload.
    pub fn take_pending_output(&mut self, handle: &String) -> (output: Option<Vec<u8>>)
        requires
            old(self).wf(),
        ensures
            final(self).wf(),
            final(self).spec_user_files_root_directory() == old(
                self,
            ).spec_user_files_root_directory(),
            final(self).spec_user_upload_directory() == old(self).spec_user_upload_directory(),
            match output {
                Some(bytes) => {
                    &&& old(self)@.contains_key(handle@)
                    &&& bytes@ == old(self)@[handle@].pending_output
                    &&& final(self)@ == old(self)@.insert(
                        handle@,
                        UploadState { pending_output: Seq::empty(), ..old(self)@[handle@] },
                    )
                },
                None => !old(self)@.contains_key(handle@) && final(self)@ == old(self)@,
            },
    {
        let slot = match table_get(&self.active_uploads_map, handle) {
            Some(slot) => slot as usize,
            None => {
                return None;
            },
        };
        let output = match &mut self.uploads[slot] {
            Some(upload) => Some(upload.take_pending_output()),
            None => None,
        };
        proof {
            assert(self@ =~= old(self)@.insert(
                handle@,
                UploadState { pending_output: Seq::empty(), ..old(self)@[handle@] },
            ));
        }
        output
    }
}

} // verus!
