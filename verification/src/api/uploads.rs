//! Requests that open an upload, feed it and finalise it.

use vstd::prelude::*;
use crate::constants::{
    ENCRYPTED_CHUNK_EXTRA_DATA_SIZE, ENCRYPTED_CHUNK_SIZE, ENCRYPTED_FILE_CRYPT_KEY_SIZE,
    ENCRYPTED_FILE_METADATA_MAX_SIZE, FILE_HANDLE_LENGTH, MAX_FILE_SIZE,
};
use crate::validation::{
    and_then, base64_byte_size, base64_decoded, base64_max_byte_size, integer_is_positive,
    integer_max_value, string_is_alphanumeric, string_length, validate_base64_byte_size,
    validate_base64_max_byte_size, validate_integer_is_positive, validate_integer_max_value,
    validate_string_is_ascii_alphanumeric, validate_string_length, validate_vector_length_range,
    vector_length_range, ValidationError,
};

verus! {

#[derive(Debug, Clone, PartialEq, Eq)]
pub struct StartUploadRequest {
    pub file_size: u64,
}

#[derive(Debug, Clone, PartialEq, Eq)]
pub struct StartUploadResponse {
    pub handle: String,
}

impl StartUploadRequest {
    /// The declared size must not be over the largest file size.
    pub open spec fn validation(&self) -> Result<(), ValidationError> {
        integer_max_value("file_size", self.file_size, MAX_FILE_SIZE)
    }

    /// Checks the request field by field and reports the first that is at
    /// fault.
    pub fn validate(&self) -> (result: Result<(), ValidationError>)
        ensures
            result == self.validation(),
            result is Ok <==> self.file_size <= MAX_FILE_SIZE,
    {
        validate_integer_max_value("file_size", self.file_size, MAX_FILE_SIZE)?;

        Ok(())
    }
}

#[derive(Debug, Clone, PartialEq, Eq)]
pub struct FinaliseUploadPathParams {
    pub handle: String,
}

impl FinaliseUploadPathParams {
    /// The handle must be made of ASCII letters and digits and have the
    /// length of a file handle.
    pub open spec fn validation(&self) -> Result<(), ValidationError> {
        and_then(
            string_is_alphanumeric("handle", self.handle@),
            string_length("handle", self.handle@, FILE_HANDLE_LENGTH),
        )
    }

    /// Checks the request field by field and reports the first that is at
    /// fault.
    pub fn validate(&self) -> (result: Result<(), ValidationError>)
        ensures
            result == self.validation(),
    {
        validate_string_is_ascii_alphanumeric("handle", self.handle.as_str())?;
        validate_string_length("handle", self.handle.as_str(), FILE_HANDLE_LENGTH)?;

        Ok(())
    }
}

#[derive(Debug, Clone, PartialEq, Eq)]
pub struct FinaliseUploadRequest {
    pub parent_handle: String,
    /// Base64 encoded
    pub encrypted_metadata: String,
    /// Base64 encoded
    pub encrypted_file_crypt_key: String,
}

impl FinaliseUploadRequest {
    /// The handle of the parent must be made of ASCII letters and digits and
    /// have the length of a file handle; the metadata must be base64 for no
    /// more bytes than metadata may have, and the key base64 for as many
    /// bytes as an encrypted file key has.
    pub open spec fn validation(&self) -> Result<(), ValidationError> {
        and_then(
            string_is_alphanumeric("parent_handle", self.parent_handle@),
            and_then(
                string_length("parent_handle", self.parent_handle@, FILE_HANDLE_LENGTH),
                and_then(
                    base64_max_byte_size(
                        "encrypted_metadata",
                        base64_decoded(self.encrypted_metadata@),
                        ENCRYPTED_FILE_METADATA_MAX_SIZE,
                    ),
                    base64_byte_size(
                        "encrypted_file_crypt_key",
                        base64_decoded(self.encrypted_file_crypt_key@),
                        ENCRYPTED_FILE_CRYPT_KEY_SIZE,
                    ),
                ),
            ),
        )
    }

    /// Checks the request field by field and reports the first that is at
    /// fault.
    pub fn validate(&self) -> (result: Result<(), ValidationError>)
        ensures
            result == self.validation(),
    {
        validate_string_is_ascii_alphanumeric("parent_handle", self.parent_handle.as_str())?;
        validate_string_length("parent_handle", self.parent_handle.as_str(), FILE_HANDLE_LENGTH)?;
        validate_base64_max_byte_size(
            "encrypted_metadata",
            self.encrypted_metadata.as_str(),
            ENCRYPTED_FILE_METADATA_MAX_SIZE,
        )?;
        validate_base64_byte_size(
            "encrypted_file_crypt_key",
            self.encrypted_file_crypt_key.as_str(),
            ENCRYPTED_FILE_CRYPT_KEY_SIZE,
        )?;

        Ok(())
    }
}

/// One chunk as it arrives: the handle of its upload, its place in the
/// file, and its encrypted bytes.
#[derive(Debug, Clone, PartialEq, Eq)]
pub struct UploadChunkRequest {
    pub handle: String,
    pub chunk_id: i64,
    pub data: Vec<u8>,
}

impl UploadChunkRequest {
    /// The handle must have the length of a file handle, the chunk id must
    /// not be negative, and the data must be no shorter than an empty chunk
    /// and no longer than a full one.
    pub open spec fn validation(&self) -> Result<(), ValidationError> {
        and_then(
            string_length("handle", self.handle@, FILE_HANDLE_LENGTH),
            and_then(
                integer_is_positive("chunk_id", self.chunk_id),
                vector_length_range(
                    "data",
                    self.data@.len(),
                    ENCRYPTED_CHUNK_EXTRA_DATA_SIZE,
                    ENCRYPTED_CHUNK_SIZE,
                ),
            ),
        )
    }

    /// Checks the request field by field and reports the first that is at
    /// fault.
    pub fn validate(&self) -> (result: Result<(), ValidationError>)
        ensures
            result == self.validation(),
    {
        validate_string_length("handle", self.handle.as_str(), FILE_HANDLE_LENGTH)?;
        validate_integer_is_positive("chunk_id", self.chunk_id)?;
        validate_vector_length_range(
            "data",
            &self.data,
            ENCRYPTED_CHUNK_EXTRA_DATA_SIZE,
            ENCRYPTED_CHUNK_SIZE,
        )?;

        Ok(())
    }
}

} // verus!
