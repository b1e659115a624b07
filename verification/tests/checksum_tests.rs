use crc_file::checksum::checksum;
use crc_file::range::RangeError;
use crc_file::service::compute_checksum;

const CONTENT: &[u8] = b"A test\nActual content\nMore content\nAnother test";

#[test]
fn test_run_ok() {
    let data = CONTENT.to_vec();
    assert_eq!(compute_checksum(&data, 0, 10).unwrap(), 0x672ec9d1);
}

#[test]
fn test_over_size() {
    let data = CONTENT.to_vec();
    let result = compute_checksum(&data, 0, 0x1000).unwrap_err();
    assert!(result.message().contains("offset + length > filesize"));
    assert!(matches!(result, RangeError::RangeExceedsFile));
}

#[test]
fn test_whole_file_via_zero_length() {
    let data = CONTENT.to_vec();
    assert_eq!(compute_checksum(&data, 0, 0).unwrap(), 0xfcd8a8f2);
}

#[test]
fn test_zero_length_round_trip() {
    // Reading to the end through the sentinel equals reading it explicitly.
    let data = CONTENT.to_vec();
    assert_eq!(
        compute_checksum(&data, 0, 0).unwrap(),
        compute_checksum(&data, 0, 47).unwrap()
    );
    assert_eq!(
        compute_checksum(&data, 35, 0).unwrap(),
        compute_checksum(&data, 35, 12).unwrap()
    );
}

#[test]
fn test_empty_checksum_is_zero() {
    assert_eq!(checksum(&[]), 0x00000000);
    // A zero-length range at the very end of the data is the empty range.
    let data = CONTENT.to_vec();
    assert_eq!(compute_checksum(&data, 47, 0).unwrap(), 0x00000000);
}

#[test]
fn test_checksum_deterministic() {
    let data = CONTENT.to_vec();
    assert_eq!(checksum(&data), checksum(&data));
    assert_eq!(
        compute_checksum(&data, 3, 17).unwrap(),
        compute_checksum(&data, 3, 17).unwrap()
    );
}

#[test]
fn test_checksum_bit_sensitivity() {
    let data = CONTENT.to_vec();
    let reference = checksum(&data);
    let mut flipped = data.clone();
    flipped[20] ^= 0x01;
    assert_ne!(checksum(&flipped), reference);
    let mut flipped_high = data.clone();
    flipped_high[0] ^= 0x80;
    assert_ne!(checksum(&flipped_high), reference);
}

#[test]
fn test_checksum_matches_crc_crate() {
    // The library must report what the CRC_32_ISO_HDLC algorithm defines;
    // 0xcbf43926 is that algorithm's published check value for "123456789".
    assert_eq!(checksum(b"123456789"), 0xcbf43926);
    let crc_obj = crc::Crc::<u32>::new(&crc::CRC_32_ISO_HDLC);
    assert_eq!(checksum(CONTENT), crc_obj.checksum(CONTENT));
}
