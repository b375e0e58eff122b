use rsonance::convert_to_s16le;

fn decode(bytes: &[u8]) -> Vec<i16> {
    bytes.chunks_exact(2).map(|chunk| i16::from_le_bytes([chunk[0], chunk[1]])).collect()
}

#[test]
fn test_convert_i16_to_s16le() {
    let i16_data: &[i16] = &[0, 1000, -1000, i16::MAX, i16::MIN];
    let result = convert_to_s16le(i16_data);

    assert_eq!(result.len(), i16_data.len() * 2);

    let samples = decode(&result);
    assert_eq!(samples, i16_data);
}

#[test]
fn test_convert_u16_to_s16le() {
    let u16_data: &[u16] = &[0, 32768, 65535];
    let result = convert_to_s16le(u16_data);

    assert_eq!(result.len(), u16_data.len() * 2);

    let samples = decode(&result);
    assert_eq!(samples[0], -32768);
    assert_eq!(samples[1], 0);
    assert_eq!(samples[2], 32767);
}

#[test]
fn test_convert_empty_data() {
    let empty: &[i16] = &[];
    let result = convert_to_s16le(empty);
    assert_eq!(result.len(), 0);
}

#[test]
fn unsigned_empty_input_gives_no_bytes() {
    let empty: &[u16] = &[];
    assert!(convert_to_s16le(empty).is_empty());
}

#[test]
fn signed_bytes_are_little_endian() {
    let data: &[i16] = &[0x1234, -2, i16::MIN, 1];
    assert_eq!(convert_to_s16le(data), vec![0x34, 0x12, 0xFE, 0xFF, 0x00, 0x80, 0x01, 0x00]);
}

#[test]
fn signed_samples_pass_through_byte_for_byte() {
    let data: Vec<i16> = (-300..300).map(|v: i32| (v * 109) as i16).collect();
    let bytes = convert_to_s16le(&data);
    let expected: Vec<u8> = data.iter().flat_map(|v| v.to_le_bytes()).collect();
    assert_eq!(bytes, expected);
}

#[test]
fn unsigned_samples_shift_by_half_range() {
    let data: &[u16] = &[1, 32767, 32769, 40000];
    let samples = decode(&convert_to_s16le(data));
    assert_eq!(samples, vec![-32767, -1, 1, 7232]);
    assert_eq!(convert_to_s16le(&[32768u16 + 0x0102][..]), vec![0x02, 0x01]);
}

#[test]
fn decoding_gives_back_signed_samples() {
    let data: &[i16] = &[0, 1, -1, 12345, -12345, i16::MAX, i16::MIN];
    assert_eq!(rsonance::decode_s16le(&convert_to_s16le(data)), data);
}

#[test]
fn decoding_ignores_trailing_odd_byte() {
    assert_eq!(rsonance::decode_s16le(&[0x01, 0x80, 0x7F]), vec![-32767]);
    assert!(rsonance::decode_s16le(&[]).is_empty());
}
