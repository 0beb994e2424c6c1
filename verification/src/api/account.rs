//! Requests that claim an account and look one up.

use vstd::prelude::*;
use crate::constants::{
    AUTH_KEY_SIZE, CLAIM_CODE_LENGTH, CURVE25519_KEY_SIZE, ENCRYPTED_CURVE25519_KEY_SIZE,
    ENCRYPTED_MASTER_KEY_SIZE, MAX_USERNAME_LENGTH, MIN_USERNAME_LENGTH, SALT_SIZE,
};
use crate::validation::{
    and_then, base64_byte_size, base64_decoded, string_is_alphanumeric, string_length,
    string_length_range, validate_base64_byte_size, validate_string_is_ascii_alphanumeric,
    validate_string_length, validate_string_length_range, ValidationError,
};

verus! {

#[derive(Debug, Clone, PartialEq, Eq)]
pub struct ClaimCodeParams {
    pub code: String,
}

impl ClaimCodeParams {
    /// The code must have the length of a claim code.
    pub open spec fn validation(&self) -> Result<(), ValidationError> {
        string_length("code", self.code@, CLAIM_CODE_LENGTH)
    }

    /// Checks the request field by field and reports the first that is at
    /// fault.
    pub fn validate(&self) -> (result: Result<(), ValidationError>)
        ensures
            result == self.validation(),
    {
        validate_string_length("code", self.code.as_str(), CLAIM_CODE_LENGTH)?;

        Ok(())
    }
}

#[derive(Debug, Clone, PartialEq, Eq)]
pub struct ClaimCodeResponse {
    pub is_valid: bool,
    pub storage_quota: u64,
}

#[derive(Debug, Clone, PartialEq, Eq)]
pub struct ClaimAccountRequest {
    pub claim_code: String,
    pub username: String,
    // Everything below is encoded in Base64
    pub auth_key: String,
    pub encrypted_master_key: String,
    pub encrypted_ed25519_private_key: String,
    pub encrypted_x25519_private_key: String,
    pub ed25519_public_key: String,
    pub x25519_public_key: String,
    pub salt: String,
}

impl ClaimAccountRequest {
    /// The claim code has the length of a claim code; the username has an
    /// allowed length and is made of ASCII letters and digits; each key and
    /// the salt is base64 for the number of bytes that its kind has.
    pub open spec fn validation(&self) -> Result<(), ValidationError> {
        and_then(
            string_length("claim_code", self.claim_code@, CLAIM_CODE_LENGTH),
            and_then(
                string_length_range(
                    "username",
                    self.username@,
                    MIN_USERNAME_LENGTH,
                    MAX_USERNAME_LENGTH,
                ),
                and_then(
                    string_is_alphanumeric("username", self.username@),
                    and_then(
                        base64_byte_size("auth_key", base64_decoded(self.auth_key@), AUTH_KEY_SIZE),
                        and_then(
                            base64_byte_size(
                                "encrypted_master_key",
                                base64_decoded(self.encrypted_master_key@),
                                ENCRYPTED_MASTER_KEY_SIZE,
                            ),
                            and_then(
                                base64_byte_size(
                                    "encrypted_ed25519_private_key",
                                    base64_decoded(self.encrypted_ed25519_private_key@),
                                    ENCRYPTED_CURVE25519_KEY_SIZE,
                                ),
                                and_then(
                                    base64_byte_size(
                                        "encrypted_x25519_private_key",
                                        base64_decoded(self.encrypted_x25519_private_key@),
                                        ENCRYPTED_CURVE25519_KEY_SIZE,
                                    ),
                                    and_then(
                                        base64_byte_size(
                                            "ed25519_public_key",
                                            base64_decoded(self.ed25519_public_key@),
                                            CURVE25519_KEY_SIZE,
                                        ),
                                        and_then(
                                            base64_byte_size(
                                                "x25519_public_key",
                                                base64_decoded(self.x25519_public_key@),
                                                CURVE25519_KEY_SIZE,
                                            ),
                                            base64_byte_size(
                                                "salt",
                                                base64_decoded(self.salt@),
                                                SALT_SIZE,
                                            ),
                                        ),
                                    ),
                                ),
                            ),
                        ),
                    ),
                ),
            ),
        )
    }

    /// Checks the request field by field and reports the first that is at
    /// fault.
    pub fn validate(&self) -> (result: Result<(), ValidationError>)
        ensures
            result == self.validation(),
    {
        validate_string_length("claim_code", self.claim_code.as_str(), CLAIM_CODE_LENGTH)?;
        validate_string_length_range(
            "username",
            self.username.as_str(),
            MIN_USERNAME_LENGTH,
            MAX_USERNAME_LENGTH,
        )?;
        validate_string_is_ascii_alphanumeric("username", self.username.as_str())?;
        validate_base64_byte_size("auth_key", self.auth_key.as_str(), AUTH_KEY_SIZE)?;
        validate_base64_byte_size(
            "encrypted_master_key",
            self.encrypted_master_key.as_str(),
            ENCRYPTED_MASTER_KEY_SIZE,
        )?;
        validate_base64_byte_size(
            "encrypted_ed25519_private_key",
            self.encrypted_ed25519_private_key.as_str(),
            ENCRYPTED_CURVE25519_KEY_SIZE,
        )?;
        validate_base64_byte_size(
            "encrypted_x25519_private_key",
            self.encrypted_x25519_private_key.as_str(),
            ENCRYPTED_CURVE25519_KEY_SIZE,
        )?;
        validate_base64_byte_size(
            "ed25519_public_key",
            self.ed25519_public_key.as_str(),
            CURVE25519_KEY_SIZE,
        )?;
        validate_base64_byte_size(
            "x25519_public_key",
            self.x25519_public_key.as_str(),
            CURVE25519_KEY_SIZE,
        )?;
        validate_base64_byte_size("salt", self.salt.as_str(), SALT_SIZE)?;

        Ok(())
    }
}

#[derive(Debug, Clone, PartialEq, Eq)]
pub struct GetUserSaltPathParams {
    pub username: String,
}

#[derive(Debug, Clone, PartialEq, Eq)]
pub struct GetUserSaltResponse {
    /// Base64 encoded
    pub salt: String,
}

} // verus!
