//! Requests for a chunk of a stored file.

use vstd::prelude::*;
use crate::constants::FILE_HANDLE_LENGTH;
use crate::validation::{
    and_then, string_is_alphanumeric, string_length, validate_string_is_ascii_alphanumeric,
    validate_string_length, ValidationError,
};

verus! {

#[derive(Debug, Clone, PartialEq, Eq)]
pub struct DownloadChunkPathParams {
    pub handle: String,
    pub chunk: u64,
}

impl DownloadChunkPathParams {
    /// The handle must be made of ASCII letters and digits and have the
    /// length of a file handle.
    pub open spec fn validation(&self) -> Result<(), ValidationError> {
        and_then(
            string_is_alphanumeric("handle", self.handle@),
            string_length("handle", self.handle@, FILE_HANDLE_LENGTH),
        )
    }

    /// Checks the request field by field and reports the first that is at
    /// fault.
    pub fn validate(&self) -> (result: Result<(), ValidationError>)
        ensures
            result == self.validation(),
    {
        validate_string_is_ascii_alphanumeric("handle", self.handle.as_str())?;
        validate_string_length("handle", self.handle.as_str(), FILE_HANDLE_LENGTH)?;

        Ok(())
    }
}

} // verus!
