//! Checks on the fields of a request.
//!
//! Each check names the field that it looks at, so that a refusal says what
//! was wrong with which field.

use base64::engine::general_purpose::STANDARD;
use base64::Engine;
use vstd::prelude::*;
use vstd::string::{is_ascii_spec_bytes, StrSliceExecFns, StringSliceAdditionalSpecFns};

verus! {

/// Why a request was refused.
#[allow(inconsistent_fields)]
#[derive(Debug, Clone, Copy, PartialEq, Eq)]
pub enum ValidationError {
    /// The integer is over the largest value allowed.
    IntegerOverMax { property: &'static str, max: u64, got: u64 },
    /// The integer is negative.
    IntegerNotPositive { property: &'static str, got: i64 },
    /// The integer is outside the range allowed.
    IntegerOutOfRange { property: &'static str, min: i64, max: i64, got: i64 },
    /// The string holds something else than ASCII letters and digits.
    NotAsciiAlphanumeric { property: &'static str },
    /// The string has another length than the one expected.
    StringLength { property: &'static str, expected: usize, got: usize },
    /// The length of the string is outside the range allowed.
    StringLengthOutOfRange { property: &'static str, min: usize, max: usize, got: usize },
    /// The base64 text stands for another number of bytes than expected.
    Base64ByteSize { property: &'static str, expected: usize, got: usize },
    /// The base64 text stands for more bytes than allowed.
    Base64OverMaxByteSize { property: &'static str, max: usize, got: usize },
    /// The text is not base64.
    Base64Invalid { property: &'static str },
    /// The length of the vector is outside the range allowed.
    VectorLengthOutOfRange { property: &'static str, min: usize, max: usize, got: usize },
}

/// The outcome of two checks in a row: the first refusal counts.
pub open spec fn and_then(first: Result<(), ValidationError>, second: Result<(), ValidationError>)
    -> Result<(), ValidationError> {
    match first {
        Ok(()) => second,
        Err(_) => first,
    }
}

/// Length of a string as Rust counts it: the bytes of its UTF-8 encoding.
pub open spec fn byte_length(text: Seq<char>) -> nat {
    vstd::utf8::encode_utf8(text).len()
}

/// An integer must not be over `max`.
pub open spec fn integer_max_value(property: &'static str, value: u64, max: u64) -> Result<
    (),
    ValidationError,
> {
    if value > max {
        Err(ValidationError::IntegerOverMax { property, max, got: value })
    } else {
        Ok(())
    }
}

/// Checks that the integer is not over `max`.
pub fn validate_integer_max_value(property: &'static str, value: u64, max: u64) -> (result: Result<
    (),
    ValidationError,
>)
    ensures
        result == integer_max_value(property, value, max),
{
    if value > max {
        return Err(ValidationError::IntegerOverMax { property, max, got: value });
    }
    Ok(())
}

/// An integer must not be negative.
pub open spec fn integer_is_positive(property: &'static str, value: i64) -> Result<
    (),
    ValidationError,
> {
    if value < 0 {
        Err(ValidationError::IntegerNotPositive { property, got: value })
    } else {
        Ok(())
    }
}

/// Checks that the integer is not negative.
pub fn validate_integer_is_positive(property: &'static str, value: i64) -> (result: Result<
    (),
    ValidationError,
>)
    ensures
        result == integer_is_positive(property, value),
{
    if value < 0 {
        return Err(ValidationError::IntegerNotPositive { property, got: value });
    }
    Ok(())
}

/// An integer must lie between `min` and `max`, both included.
pub open spec fn integer_range(property: &'static str, value: i64, min: i64, max: i64) -> Result<
    (),
    ValidationError,
> {
    if value < min || value > max {
        Err(ValidationError::IntegerOutOfRange { property, min, max, got: value })
    } else {
        Ok(())
    }
}

/// Checks that the integer is within the minimum and maximum value
/// (inclusive).
pub fn validate_integer_range(property: &'static str, value: i64, min: i64, max: i64) -> (result:
    Result<(), ValidationError>)
    ensures
        result == integer_range(property, value, min, max),
{
    if value < min || value > max {
        return Err(ValidationError::IntegerOutOfRange { property, min, max, got: value });
    }
    Ok(())
}

/// An ASCII letter or digit.
pub open spec fn is_alphanumeric_char(c: char) -> bool {
    ('a' <= c <= 'z') || ('A' <= c <= 'Z') || ('0' <= c <= '9')
}

/// Every character is an ASCII letter or digit.
pub open spec fn is_ascii_alphanumeric(text: Seq<char>) -> bool {
    forall|i: int| 0 <= i < text.len() ==> is_alphanumeric_char(#[trigger] text[i])
}

/// Whether every character of `text` is an ASCII letter or digit.
pub fn string_is_ascii_alphanumeric(text: &str) -> (all: bool)
    ensures
        all == is_ascii_alphanumeric(text@),
{
    if !text.is_ascii() {
        return false;
    }
    proof {
        is_ascii_spec_bytes(text);
    }
    let length = text.as_bytes().len();
    let mut i: usize = 0;
    while i < length
        invariant
            text.is_ascii(),
            length == text@.len(),
            i <= length,
            forall|k: int| 0 <= k < i ==> is_alphanumeric_char(#[trigger] text@[k]),
        decreases length - i,
    {
        let byte = text.get_ascii(i);
        let alphanumeric = (97 <= byte && byte <= 122) || (65 <= byte && byte <= 90) || (48 <= byte
            && byte <= 57);
        if !alphanumeric {
            assert(!is_alphanumeric_char(text@[i as int]));
            return false;
        }
        i = i + 1;
    }
    true
}

/// A string must be made of ASCII letters and digits.
pub open spec fn string_is_alphanumeric(property: &'static str, text: Seq<char>) -> Result<
    (),
    ValidationError,
> {
    if is_ascii_alphanumeric(text) {
        Ok(())
    } else {
        Err(ValidationError::NotAsciiAlphanumeric { property })
    }
}

/// Checks that a string is ascii alphanumeric.
pub fn validate_string_is_ascii_alphanumeric(property: &'static str, text: &str) -> (result: Result<
    (),
    ValidationError,
>)
    ensures
        result == string_is_alphanumeric(property, text@),
{
    if !string_is_ascii_alphanumeric(text) {
        return Err(ValidationError::NotAsciiAlphanumeric { property });
    }
    Ok(())
}

/// A string must have `expected_len` bytes.
pub open spec fn string_length(property: &'static str, text: Seq<char>, expected_len: usize)
    -> Result<(), ValidationError> {
    if byte_length(text) != expected_len {
        Err(
            ValidationError::StringLength {
                property,
                expected: expected_len,
                got: byte_length(text) as usize,
            },
        )
    } else {
        Ok(())
    }
}

/// Checks that a string exactly matches the provided length.
pub fn validate_string_length(property: &'static str, text: &str, expected_len: usize) -> (result:
    Result<(), ValidationError>)
    ensures
        result == string_length(property, text@, expected_len),
{
    let length = text.as_bytes().len();

    if length != expected_len {
        return Err(ValidationError::StringLength { property, expected: expected_len, got: length });
    }
    Ok(())
}

/// A string must have between `min_len` and `max_len` bytes, both included.
pub open spec fn string_length_range(
    property: &'static str,
    text: Seq<char>,
    min_len: usize,
    max_len: usize,
) -> Result<(), ValidationError> {
    if byte_length(text) < min_len || byte_length(text) > max_len {
        Err(
            ValidationError::StringLengthOutOfRange {
                property,
                min: min_len,
                max: max_len,
                got: byte_length(text) as usize,
            },
        )
    } else {
        Ok(())
    }
}

/// Checks that the length of a string lies between `min_len` and
/// `max_len`, both included.
pub fn validate_string_length_range(
    property: &'static str,
    text: &str,
    min_len: usize,
    max_len: usize,
) -> (result: Result<(), ValidationError>)
    ensures
        result == string_length_range(property, text@, min_len, max_len),
{
    let length = text.as_bytes().len();

    if length < min_len || length > max_len {
        return Err(
            ValidationError::StringLengthOutOfRange {
                property,
                min: min_len,
                max: max_len,
                got: length,
            },
        );
    }
    Ok(())
}

/// The bytes that `text` stands for in standard base64 with padding, or
/// `None` where it is not such a text.
pub uninterp spec fn base64_decoded(text: Seq<char>) -> Option<Seq<u8>>;

/// `Engine::decode` of `base64::engine::general_purpose::STANDARD`: the
/// bytes that `text` stands for, or `None` where the decoder reports an
/// error. The contract only gives the outcome its name.
#[verifier::external_body]
pub(crate) fn decode_base64(text: &str) -> (bytes: Option<Vec<u8>>)
    ensures
        match bytes {
            Some(decoded) => base64_decoded(text@) == Some(decoded@),
            None => base64_decoded(text@) is None,
        },
{
    STANDARD.decode(text).ok()
}

/// What was decoded from a base64 field must be bytes, and `expected_len`
/// of them.
pub open spec fn base64_byte_size(
    property: &'static str,
    decoded: Option<Seq<u8>>,
    expected_len: usize,
) -> Result<(), ValidationError> {
    match decoded {
        Some(bytes) => if bytes.len() != expected_len {
            Err(
                ValidationError::Base64ByteSize {
                    property,
                    expected: expected_len,
                    got: bytes.len() as usize,
                },
            )
        } else {
            Ok(())
        },
        None => Err(ValidationError::Base64Invalid { property }),
    }
}

/// Checks what decoding a base64 field gave: it must be bytes, and
/// `expected_len` of them.
pub fn check_base64_byte_size(
    property: &'static str,
    decoded: Option<Vec<u8>>,
    expected_len: usize,
) -> (result: Result<(), ValidationError>)
    ensures
        result == base64_byte_size(
            property,
            match decoded {
                Some(bytes) => Some(bytes@),
                None => None,
            },
            expected_len,
        ),
{
    match decoded {
        Some(bytes) => {
            if bytes.len() != expected_len {
                return Err(
                    ValidationError::Base64ByteSize {
                        property,
                        expected: expected_len,
                        got: bytes.len(),
                    },
                );
            }
            Ok(())
        },
        None => Err(ValidationError::Base64Invalid { property }),
    }
}

/// Checks that a base64 string stands for exactly `expected_len` bytes.
pub fn validate_base64_byte_size(
    property: &'static str,
    text: &str,
    expected_len: usize,
) -> (result: Result<(), ValidationError>)
    ensures
        result == base64_byte_size(property, base64_decoded(text@), expected_len),
{
    check_base64_byte_size(property, decode_base64(text), expected_len)
}

/// What was decoded from a base64 field must be bytes, and no more than
/// `max_len` of them.
pub open spec fn base64_max_byte_size(
    property: &'static str,
    decoded: Option<Seq<u8>>,
    max_len: usize,
) -> Result<(), ValidationError> {
    match decoded {
        Some(bytes) => if bytes.len() > max_len {
            Err(
                ValidationError::Base64OverMaxByteSize {
                    property,
                    max: max_len,
                    got: bytes.len() as usize,
                },
            )
        } else {
            Ok(())
        },
        None => Err(ValidationError::Base64Invalid { property }),
    }
}

/// Checks what decoding a base64 field gave: it must be bytes, and no more
/// than `max_len` of them.
pub fn check_base64_max_byte_size(
    property: &'static str,
    decoded: Option<Vec<u8>>,
    max_len: usize,
) -> (result: Result<(), ValidationError>)
    ensures
        result == base64_max_byte_size(
            property,
            match decoded {
                Some(bytes) => Some(bytes@),
                None => None,
            },
            max_len,
        ),
{
    match decoded {
        Some(bytes) => {
            if bytes.len() > max_len {
                return Err(
                    ValidationError::Base64OverMaxByteSize {
                        property,
                        max: max_len,
                        got: bytes.len(),
                    },
                );
            }
            Ok(())
        },
        None => Err(ValidationError::Base64Invalid { property }),
    }
}

/// Checks that a base64 string stands for a number of bytes that doesn't
/// exceed a specified limit.
pub fn validate_base64_max_byte_size(property: &'static str, text: &str, max_len: usize) -> (result:
    Result<(), ValidationError>)
    ensures
        result == base64_max_byte_size(property, base64_decoded(text@), max_len),
{
    check_base64_max_byte_size(property, decode_base64(text), max_len)
}

/// A vector must have between `min` and `max` elements, both included.
pub open spec fn vector_length_range(
    property: &'static str,
    length: nat,
    min: usize,
    max: usize,
) -> Result<(), ValidationError> {
    if length < min || length > max {
        Err(ValidationError::VectorLengthOutOfRange { property, min, max, got: length as usize })
    } else {
        Ok(())
    }
}

/// Checks that the length of a vector lies between `min` and `max`, both
/// included.
pub fn validate_vector_length_range(
    property: &'static str,
    vector: &Vec<u8>,
    min: usize,
    max: usize,
) -> (result: Result<(), ValidationError>)
    ensures
        result == vector_length_range(property, vector@.len(), min, max),
{
    if vector.len() < min || vector.len() > max {
        return Err(
            ValidationError::VectorLengthOutOfRange { property, min, max, got: vector.len() },
        );
    }
    Ok(())
}

} // verus!
