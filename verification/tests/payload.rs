use sigverify_example::payload::{
    decode_offsets, read_u16_le, region_equals, SignatureOffsets, HEADER_LEN, PUBKEY_LEN,
};

fn header(public_key_start: u16, message_data_start: u16, message_size: u16) -> Vec<u8> {
    let mut payload = vec![1u8, 0, 0, 0, 0, 0];
    payload.extend_from_slice(&public_key_start.to_le_bytes());
    payload.extend_from_slice(&[0, 0]);
    payload.extend_from_slice(&message_data_start.to_le_bytes());
    payload.extend_from_slice(&message_size.to_le_bytes());
    payload
}

#[test]
fn read_u16_le_takes_the_low_byte_first() {
    assert_eq!(read_u16_le(&[0x10, 0x00], 0), Some(16));
    assert_eq!(read_u16_le(&[0x34, 0x12], 0), Some(0x1234));
    assert_eq!(read_u16_le(&[0x00, 0x01], 0), Some(256));
    assert_eq!(read_u16_le(&[0xff, 0xff], 0), Some(65535));
}

#[test]
fn read_u16_le_reads_at_the_given_position() {
    let bytes = [9u8, 9, 9, 0x30, 0x00, 0x05];
    assert_eq!(read_u16_le(&bytes, 3), Some(48));
    assert_eq!(read_u16_le(&bytes, 4), Some(0x0500));
}

#[test]
fn read_u16_le_needs_both_bytes() {
    let bytes = [1u8, 2, 3];
    assert_eq!(read_u16_le(&bytes, 1), Some(0x0302));
    assert_eq!(read_u16_le(&bytes, 2), None);
    assert_eq!(read_u16_le(&bytes, 3), None);
    assert_eq!(read_u16_le(&bytes, usize::MAX), None);
    assert_eq!(read_u16_le(&[], 0), None);
    assert_eq!(read_u16_le(&[7], 0), None);
}

#[test]
fn decode_offsets_reads_the_three_fields() {
    let mut payload = header(16, 48, 5);
    payload.resize(53, 0);
    assert_eq!(
        decode_offsets(&payload),
        Some(SignatureOffsets { public_key_start: 16, message_data_start: 48, message_size: 5 })
    );
}

#[test]
fn decode_offsets_ignores_the_count_byte() {
    let mut payload = header(16, 48, 5);
    payload.resize(53, 0);
    payload[0] = 0;
    assert!(decode_offsets(&payload).is_some());
    payload[0] = 200;
    assert!(decode_offsets(&payload).is_some());
}

#[test]
fn decode_offsets_needs_the_whole_header() {
    assert_eq!(decode_offsets(&[]), None);
    let mut payload = header(0, 0, 0);
    payload.resize(64, 0);
    assert!(decode_offsets(&payload).is_some());
    assert_eq!(decode_offsets(&payload[..HEADER_LEN - 1]), None);
    assert_eq!(decode_offsets(&payload[..7]), None);
}

#[test]
fn decode_offsets_needs_the_key_inside() {
    let mut payload = header(16, 0, 0);
    payload.resize(16 + PUBKEY_LEN, 0);
    assert!(decode_offsets(&payload).is_some());
    payload.pop();
    assert_eq!(decode_offsets(&payload), None);
}

#[test]
fn decode_offsets_needs_the_message_inside() {
    let mut payload = header(0, 48, 5);
    payload.resize(53, 0);
    assert!(decode_offsets(&payload).is_some());
    payload.pop();
    assert_eq!(decode_offsets(&payload), None);
}

#[test]
fn decode_offsets_takes_the_largest_fields() {
    let mut payload = header(65535, 65535, 65535);
    payload.resize(65535 + 65535, 0);
    assert_eq!(
        decode_offsets(&payload),
        Some(SignatureOffsets {
            public_key_start: 65535,
            message_data_start: 65535,
            message_size: 65535,
        })
    );
    payload.pop();
    assert_eq!(decode_offsets(&payload), None);
}

#[test]
fn region_equals_compares_byte_by_byte() {
    let bytes = [0u8, 1, 2, 3, 4, 5];
    assert!(region_equals(&bytes, 2, 3, &[2, 3, 4]));
    assert!(!region_equals(&bytes, 2, 3, &[2, 3, 5]));
    assert!(!region_equals(&bytes, 2, 3, &[9, 3, 4]));
    assert!(!region_equals(&bytes, 1, 3, &[2, 3, 4]));
}

#[test]
fn region_equals_takes_the_length_into_account() {
    let bytes = [0u8, 1, 2, 3, 4, 5];
    assert!(!region_equals(&bytes, 2, 3, &[2, 3]));
    assert!(!region_equals(&bytes, 2, 3, &[2, 3, 4, 5]));
    assert!(!region_equals(&bytes, 2, 2, &[2, 3, 4]));
    assert!(region_equals(&bytes, 2, 0, &[]));
    assert!(region_equals(&bytes, 6, 0, &[]));
}

#[test]
fn region_equals_refuses_a_region_outside() {
    let bytes = [0u8, 1, 2, 3, 4, 5];
    assert!(!region_equals(&bytes, 4, 3, &[4, 5, 0]));
    assert!(!region_equals(&bytes, 7, 0, &[]));
    assert!(!region_equals(&bytes, usize::MAX, 2, &[0, 1]));
    assert!(!region_equals(&bytes, 2, usize::MAX, &[2, 3]));
}
