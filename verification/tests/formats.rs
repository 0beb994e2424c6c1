use treasury::constants::{
    CHUNK_DATA_SIZE, ENCRYPTED_CHUNK_EXTRA_DATA_SIZE, ENCRYPTED_CHUNK_SIZE,
    ENCRYPTED_FILE_HEADER_SIZE, ENCRYPTED_FILE_MAGIC_NUMBER, MAX_FILE_SIZE,
};
use treasury::formats::{calc_encrypted_file_size, calc_file_chunk_count, calc_raw_chunk_size};

const MIB: u64 = 1024 * 1024;

#[test]
fn constants_have_the_sizes_of_the_format() {
    assert_eq!(CHUNK_DATA_SIZE, 2 * 1024 * 1024);
    assert_eq!(ENCRYPTED_CHUNK_EXTRA_DATA_SIZE, 44);
    assert_eq!(ENCRYPTED_CHUNK_SIZE, 2 * 1024 * 1024 + 44);
    assert_eq!(ENCRYPTED_FILE_HEADER_SIZE, ENCRYPTED_FILE_MAGIC_NUMBER.len());
    assert_eq!(ENCRYPTED_FILE_MAGIC_NUMBER, [0x2E, 0x54, 0x45, 0x46]);
    assert_eq!(MAX_FILE_SIZE, 1u64 << 40);
}

#[test]
fn an_empty_file_has_no_chunks() {
    assert_eq!(calc_file_chunk_count(0), 0);
    assert_eq!(calc_encrypted_file_size(0), 4);
}

#[test]
fn chunk_count_rounds_up() {
    assert_eq!(calc_file_chunk_count(1), 1);
    assert_eq!(calc_file_chunk_count(2 * MIB - 1), 1);
    assert_eq!(calc_file_chunk_count(2 * MIB), 1);
    assert_eq!(calc_file_chunk_count(2 * MIB + 1), 2);
    assert_eq!(calc_file_chunk_count(4 * MIB), 2);
    assert_eq!(calc_file_chunk_count(5 * MIB), 3);
    assert_eq!(calc_file_chunk_count(MAX_FILE_SIZE), 524288);
}

#[test]
fn chunk_count_of_the_largest_number() {
    assert_eq!(calc_file_chunk_count(u64::MAX), 8796093022208);
}

#[test]
fn encrypted_size_adds_header_and_overhead_per_chunk() {
    assert_eq!(calc_encrypted_file_size(1), 4 + 44 + 1);
    assert_eq!(calc_encrypted_file_size(2 * MIB), 4 + 44 + 2 * MIB);
    assert_eq!(calc_encrypted_file_size(2 * MIB + 1), 4 + 2 * 44 + 2 * MIB + 1);
    assert_eq!(calc_encrypted_file_size(5 * MIB), 5243016);
    assert_eq!(calc_encrypted_file_size(MAX_FILE_SIZE), 1099534696452);
}

#[test]
fn overhead_of_a_container_is_header_plus_overhead_of_its_chunks() {
    for raw_size in [0u64, 1, 43, 44, 2 * MIB - 1, 2 * MIB, 2 * MIB + 1, 7 * MIB + 3, MAX_FILE_SIZE]
    {
        assert_eq!(
            calc_encrypted_file_size(raw_size) - raw_size,
            ENCRYPTED_FILE_HEADER_SIZE as u64
                + calc_file_chunk_count(raw_size) * ENCRYPTED_CHUNK_EXTRA_DATA_SIZE as u64
        );
    }
}

#[test]
fn raw_chunk_size_takes_the_overhead_off() {
    assert_eq!(calc_raw_chunk_size(44), 0);
    assert_eq!(calc_raw_chunk_size(45), 1);
    assert_eq!(calc_raw_chunk_size(ENCRYPTED_CHUNK_SIZE as u64), 2 * MIB);
}

#[test]
fn raw_chunk_size_and_overhead_give_the_encrypted_size_back() {
    for length in [44u64, 45, 100, 2 * MIB + 44, u64::MAX] {
        assert_eq!(calc_raw_chunk_size(length) + ENCRYPTED_CHUNK_EXTRA_DATA_SIZE as u64, length);
    }
}
