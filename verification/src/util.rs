//! Fresh handles and claim codes, and the reading of byte sizes.

use vstd::prelude::*;
use vstd::string::{StringExecFns, StringSliceAdditionalSpecFns};
use vstd::utf8::{is_ascii_chars, is_ascii_chars_encode_utf8};
use crate::constants::{
    ALPHANUMERIC_CHARS, CLAIM_CODE_LENGTH, FILE_HANDLE_LENGTH, LOWER_CASE_ALPHANUMERIC_CHARS,
};
use crate::validation::{
    is_alphanumeric_char, is_ascii_alphanumeric, string_is_alphanumeric, string_length,
    ValidationError,
};

verus! {

/// `nanoid::format` with the generator `nanoid::rngs::default`: a string of
/// `size` characters, each drawn at random from `alphabet`. Which
/// characters come out is left open.
#[verifier::external_body]
pub(crate) fn random_id(alphabet: &[char], size: usize) -> (id: String)
    requires
        0 < alphabet@.len() <= 255,
        is_ascii_chars(alphabet@),
        0 < size <= usize::MAX / 8,
    ensures
        id@.len() == size,
        forall|i: int| 0 <= i < id@.len() ==> alphabet@.contains(#[trigger] id@[i]),
{
    nanoid::format(nanoid::rngs::default, alphabet, size)
}

/// A transfer handle: letters and digits, as many as a handle has.
pub open spec fn is_file_handle(text: Seq<char>) -> bool {
    text.len() == FILE_HANDLE_LENGTH && is_ascii_alphanumeric(text)
}

/// A lower-case letter or a digit.
pub open spec fn is_lower_case_alphanumeric_char(c: char) -> bool {
    ('a' <= c <= 'z') || ('0' <= c <= '9')
}

/// A claim code: four groups of five lower-case letters and digits, with a
/// hyphen between one group and the next.
pub open spec fn is_claim_code(text: Seq<char>) -> bool {
    &&& text.len() == CLAIM_CODE_LENGTH
    &&& forall|i: int|
        0 <= i < text.len() ==> if i % 6 == 5 {
            (#[trigger] text[i]) == '-'
        } else {
            is_lower_case_alphanumeric_char(text[i])
        }
}

proof fn lemma_alphabets()
    ensures
        ALPHANUMERIC_CHARS@.len() == 62,
        LOWER_CASE_ALPHANUMERIC_CHARS@.len() == 36,
        forall|i: int| 0 <= i < 62 ==> is_alphanumeric_char(#[trigger] ALPHANUMERIC_CHARS@[i]),
        forall|i: int|
            0 <= i < 36 ==> is_lower_case_alphanumeric_char(
                #[trigger] LOWER_CASE_ALPHANUMERIC_CHARS@[i],
            ),
{
}

/// A fresh handle for a transfer.
pub fn generate_file_handle() -> (handle: String)
    ensures
        is_file_handle(handle@),
{
    proof {
        lemma_alphabets();
    }
    let length = FILE_HANDLE_LENGTH;
    random_id(ALPHANUMERIC_CHARS.as_slice(), length)
}

/// A fresh claim code.
pub fn generate_claim_code() -> (code: String)
    ensures
        is_claim_code(code@),
{
    proof {
        lemma_alphabets();
        reveal_strlit("-");
    }
    let section_length: usize = 5;
    let first = random_id(LOWER_CASE_ALPHANUMERIC_CHARS.as_slice(), section_length);
    let second = random_id(LOWER_CASE_ALPHANUMERIC_CHARS.as_slice(), section_length);
    let third = random_id(LOWER_CASE_ALPHANUMERIC_CHARS.as_slice(), section_length);
    let fourth = random_id(LOWER_CASE_ALPHANUMERIC_CHARS.as_slice(), section_length);

    let code = first.concat("-").concat(second.as_str()).concat("-").concat(
        third.as_str(),
    ).concat("-").concat(fourth.as_str());
    proof {
        assert(code@ =~= first@ + seq!['-'] + second@ + seq!['-'] + third@ + seq!['-'] + fourth@);
        assert forall|i: int| 0 <= i < code@.len() implies if i % 6 == 5 {
            (#[trigger] code@[i]) == '-'
        } else {
            is_lower_case_alphanumeric_char(code@[i])
        } by {
            if i < 5 {
                assert(code@[i] == first@[i]);
            } else if 6 <= i < 11 {
                assert(code@[i] == second@[i - 6]);
            } else if 12 <= i < 17 {
                assert(code@[i] == third@[i - 12]);
            } else if 18 <= i < 23 {
                assert(code@[i] == fourth@[i - 18]);
            }
        }
    }
    code
}

/// Every transfer handle passes the checks that requests make of a handle.
pub proof fn lemma_file_handle_is_valid(property: &'static str, handle: Seq<char>)
    requires
        is_file_handle(handle),
    ensures
        string_is_alphanumeric(property, handle) == Ok::<(), ValidationError>(()),
        string_length(property, handle, FILE_HANDLE_LENGTH) == Ok::<(), ValidationError>(()),
{
    assert(is_ascii_chars(handle));
    is_ascii_chars_encode_utf8(handle);
}

/// Why a text is not a byte size.
#[derive(Debug, Clone, Copy, PartialEq, Eq, Structural)]
pub enum ByteSizeError {
    /// The text does not end in one of the units `b`, `kb`, `mb`, `gb`,
    /// `tb` and `pb`.
    InvalidUnit,
    /// What stands before the unit is empty or holds something else than
    /// digits and periods.
    InvalidNumber,
}

/// A byte size such as `1.5gb`, taken apart: the number is written in the
/// first `number_length` bytes of the text, and it counts units of a
/// thousand to the power of `exponent` bytes.
#[derive(Debug, Clone, Copy, PartialEq, Eq, Structural)]
pub struct ByteSizeParts {
    pub number_length: usize,
    pub exponent: u32,
}

/// The power of a thousand that the letter before the final `b` of a unit
/// stands for, or 0 if it is no such letter.
pub open spec fn unit_exponent(letter: u8) -> u32 {
    if letter == 107 {
        // k
        1
    } else if letter == 109 {
        // m
        2
    } else if letter == 103 {
        // g
        3
    } else if letter == 116 {
        // t
        4
    } else if letter == 112 {
        // p
        5
    } else {
        0
    }
}

/// A digit or a period.
pub open spec fn is_number_byte(byte: u8) -> bool {
    (48 <= byte <= 57) || byte == 46
}

/// One or more digits and periods.
pub open spec fn is_number_text(text: Seq<u8>) -> bool {
    text.len() > 0 && forall|i: int| 0 <= i < text.len() ==> is_number_byte(#[trigger] text[i])
}

/// The parts of the byte size that `text` holds. The text must end in a
/// unit, of which the longest that fits counts, and what stands before the
/// unit must be one or more digits and periods.
pub open spec fn byte_size_parts(text: Seq<u8>) -> Result<ByteSizeParts, ByteSizeError> {
    if text.len() == 0 || text.last() != 98 {
        Err(ByteSizeError::InvalidUnit)
    } else {
        let exponent = if text.len() >= 2 {
            unit_exponent(text[text.len() - 2])
        } else {
            0
        };
        let unit_length: int = if exponent > 0 {
            2
        } else {
            1
        };
        let number = text.take(text.len() - unit_length);
        if is_number_text(number) {
            Ok(ByteSizeParts { number_length: number.len() as usize, exponent })
        } else {
            Err(ByteSizeError::InvalidNumber)
        }
    }
}

/// Takes a byte size apart. The text is expected in lower case and without
/// spaces.
pub fn split_byte_size(text: &str) -> (result: Result<ByteSizeParts, ByteSizeError>)
    ensures
        result == byte_size_parts(text.spec_bytes()),
        result matches Ok(parts) ==> parts.number_length < text.spec_bytes().len(),
{
    let bytes = text.as_bytes();
    let length = bytes.len();
    if length == 0 || bytes[length - 1] != 98 {
        return Err(ByteSizeError::InvalidUnit);
    }
    let letter: u8 = if length >= 2 {
        bytes[length - 2]
    } else {
        0
    };
    let exponent: u32 = if letter == 107 {
        1
    } else if letter == 109 {
        2
    } else if letter == 103 {
        3
    } else if letter == 116 {
        4
    } else if letter == 112 {
        5
    } else {
        0
    };
    let number_length = if exponent > 0 {
        length - 2
    } else {
        length - 1
    };
    if number_length == 0 {
        return Err(ByteSizeError::InvalidNumber);
    }
    let ghost number = bytes@.take(number_length as int);
    let mut i: usize = 0;
    while i < number_length
        invariant
            i <= number_length < length,
            length == bytes@.len(),
            number == bytes@.take(number_length as int),
            bytes@ == text.spec_bytes(),
            bytes@.last() == 98,
            exponent == (if length >= 2 {
                unit_exponent(bytes@[length - 2])
            } else {
                0
            }),
            number_length == (if exponent > 0 {
                length - 2
            } else {
                length - 1
            }),
            forall|k: int| 0 <= k < i ==> is_number_byte(#[trigger] number[k]),
        decreases number_length - i,
    {
        let byte = bytes[i];
        if !((48 <= byte && byte <= 57) || byte == 46) {
            assert(!is_number_byte(number[i as int]));
            return Err(ByteSizeError::InvalidNumber);
        }
        i = i + 1;
    }
    Ok(ByteSizeParts { number_length, exponent })
}

} // verus!
