//! Logging in and out.

use vstd::prelude::*;
use crate::constants::{AUTH_KEY_SIZE, MAX_USERNAME_LENGTH, MIN_USERNAME_LENGTH};
use crate::validation::{
    and_then, base64_byte_size, base64_decoded, string_is_alphanumeric, string_length_range,
    validate_base64_byte_size, validate_string_is_ascii_alphanumeric,
    validate_string_length_range, ValidationError,
};

verus! {

#[derive(Debug, Clone, PartialEq, Eq)]
pub struct GetSessionInfoResponse {
    pub user_id: u64,
    pub username: String,
    pub storage_quota: u64,
}

#[derive(Debug, Clone, PartialEq, Eq)]
pub struct LoginRequest {
    pub username: String,
    /// Base64 encoded
    pub auth_key: String,
}

impl LoginRequest {
    /// The username is made of ASCII letters and digits and has an allowed
    /// length; the key is base64 for as many bytes as an authentication key
    /// has.
    pub open spec fn validation(&self) -> Result<(), ValidationError> {
        and_then(
            string_is_alphanumeric("username", self.username@),
            and_then(
                string_length_range(
                    "username",
                    self.username@,
                    MIN_USERNAME_LENGTH,
                    MAX_USERNAME_LENGTH,
                ),
                base64_byte_size("auth_key", base64_decoded(self.auth_key@), AUTH_KEY_SIZE),
            ),
        )
    }

    /// Checks the request field by field and reports the first that is at
    /// fault.
    pub fn validate(&self) -> (result: Result<(), ValidationError>)
        ensures
            result == self.validation(),
    {
        validate_string_is_ascii_alphanumeric("username", self.username.as_str())?;
        validate_string_length_range(
            "username",
            self.username.as_str(),
            MIN_USERNAME_LENGTH,
            MAX_USERNAME_LENGTH,
        )?;
        validate_base64_byte_size("auth_key", self.auth_key.as_str(), AUTH_KEY_SIZE)?;

        Ok(())
    }
}

#[derive(Debug, Clone, PartialEq, Eq)]
pub struct LoginResponse {
    pub encrypted_master_key: String,
    pub encrypted_ed25519_private_key: String,
    pub encrypted_x25519_private_key: String,
}

} // verus!
