//! Requests on the tree of files and folders.

use vstd::prelude::*;
use crate::constants::{ENCRYPTED_FILE_METADATA_MAX_SIZE, FILE_HANDLE_LENGTH};
use crate::validation::{
    and_then, base64_decoded, base64_max_byte_size, string_is_alphanumeric, string_length,
    validate_base64_max_byte_size, validate_string_is_ascii_alphanumeric, validate_string_length,
    ValidationError,
};

verus! {

#[derive(Debug, Clone, PartialEq, Eq)]
pub struct GetUsageResponse {
    pub bytes_used: u64,
}

#[derive(Debug, Clone, PartialEq, Eq)]
pub struct GetItemsParams {
    pub parent_handle: String,
}

impl GetItemsParams {
    /// The handle of the parent must be made of ASCII letters and digits and
    /// have the length of a file handle.
    pub open spec fn validation(&self) -> Result<(), ValidationError> {
        and_then(
            string_is_alphanumeric("parent_handle", self.parent_handle@),
            string_length("parent_handle", self.parent_handle@, FILE_HANDLE_LENGTH),
        )
    }

    /// Checks the request field by field and reports the first that is at
    /// fault.
    pub fn validate(&self) -> (result: Result<(), ValidationError>)
        ensures
            result == self.validation(),
    {
        validate_string_is_ascii_alphanumeric("parent_handle", self.parent_handle.as_str())?;
        validate_string_length("parent_handle", self.parent_handle.as_str(), FILE_HANDLE_LENGTH)?;

        Ok(())
    }
}

#[derive(Debug, Clone, PartialEq, Eq)]
pub struct FilesystemItem {
    pub handle: String,
    pub size: u64,
    pub encrypted_file_crypt_key: String,
    pub encrypted_metadata: String,
}

#[derive(Debug, Clone, PartialEq, Eq)]
pub struct GetItemsResponse {
    pub items: Vec<FilesystemItem>,
}

#[derive(Debug, Clone, PartialEq, Eq)]
pub struct CreateFolderRequest {
    pub parent_handle: String,
    /// Base64 encoded
    pub encrypted_metadata: String,
}

#[derive(Debug, Clone, PartialEq, Eq)]
pub struct CreateFolderResponse {
    pub handle: String,
}

impl CreateFolderRequest {
    /// The handle of the parent must be made of ASCII letters and digits and
    /// have the length of a file handle; the metadata must be base64 for no
    /// more bytes than metadata may have.
    pub open spec fn validation(&self) -> Result<(), ValidationError> {
        and_then(
            string_is_alphanumeric("parent_handle", self.parent_handle@),
            and_then(
                string_length("parent_handle", self.parent_handle@, FILE_HANDLE_LENGTH),
                base64_max_byte_size(
                    "encrypted_metadata",
                    base64_decoded(self.encrypted_metadata@),
                    ENCRYPTED_FILE_METADATA_MAX_SIZE,
                ),
            ),
        )
    }

    /// Checks the request field by field and reports the first that is at
    /// fault.
    pub fn validate(&self) -> (result: Result<(), ValidationError>)
        ensures
            result == self.validation(),
    {
        validate_string_is_ascii_alphanumeric("parent_handle", self.parent_handle.as_str())?;
        validate_string_length("parent_handle", self.parent_handle.as_str(), FILE_HANDLE_LENGTH)?;
        validate_base64_max_byte_size(
            "encrypted_metadata",
            self.encrypted_metadata.as_str(),
            ENCRYPTED_FILE_METADATA_MAX_SIZE,
        )?;

        Ok(())
    }
}

#[derive(Debug, Clone, PartialEq, Eq)]
pub struct PutMetadataRequest {
    pub handle: String,
    /// Base64 encoded
    pub encrypted_metadata: String,
}

impl PutMetadataRequest {
    /// The handle must have the length of a file handle; the metadata must
    /// be base64 for no more bytes than metadata may have.
    pub open spec fn validation(&self) -> Result<(), ValidationError> {
        and_then(
            string_length("handle", self.handle@, FILE_HANDLE_LENGTH),
            base64_max_byte_size(
                "encrypted_metadata",
                base64_decoded(self.encrypted_metadata@),
                ENCRYPTED_FILE_METADATA_MAX_SIZE,
            ),
        )
    }

    /// Checks the request field by field and reports the first that is at
    /// fault.
    pub fn validate(&self) -> (result: Result<(), ValidationError>)
        ensures
            result == self.validation(),
    {
        validate_string_length("handle", self.handle.as_str(), FILE_HANDLE_LENGTH)?;
        validate_base64_max_byte_size(
            "encrypted_metadata",
            self.encrypted_metadata.as_str(),
            ENCRYPTED_FILE_METADATA_MAX_SIZE,
        )?;

        Ok(())
    }
}

} // verus!
