//! Tests of the sample-frame codec: field extraction, sign extension, the
//! two wire encodings, and their round-trip equivalence.

use byteorder::ByteOrder;
use hackeeg::responses::ClientError;
use hackeeg::sample::{
    decode_binary_frame, decode_json_payload, encode_as_base64_json, encode_as_binary, Channel,
    Sample,
};

/// A raw 36-byte frame with one byte pattern per interesting case.
fn frame() -> Vec<u8> {
    vec![
        0x01, 0x02, 0x03, 0x04, // timestamp, little-endian
        0x05, 0x06, 0x07, 0x08, // sample number, little-endian
        0xAA, 0xBB, 0xCC, // status bytes
        0x7F, 0xFF, 0xFF, // channel 1: greatest positive
        0x80, 0x00, 0x00, // channel 2: least negative
        0x00, 0x00, 0x01, // channel 3: one
        0xFF, 0xFF, 0xFF, // channel 4: minus one
        0x12, 0x34, 0x56, // channel 5
        0xED, 0xCB, 0xAA, // channel 6
        0x00, 0x80, 0x00, // channel 7
        0x55, 0xAA, 0x55, // channel 8
        0x99, // trailing pad byte, never read
    ]
}

#[test]
fn test_from_bytes_fields() {
    let s = Sample::from_bytes(&frame()).unwrap();
    assert_eq!(s.timestamp, 67305985);
    assert_eq!(s.sample_number, 134678021);
    assert_eq!(s.ads_status, 1432217151);
    assert_eq!(s.ads_gpio, 15);
    assert_eq!(s.loff_statn, 99);
    assert_eq!(s.loff_statp, 222);
    assert_eq!(s.extra, 85);
    let expected: [i32; 8] = [8388607, -8388608, 1, -1, 1193046, -1193046, 32768, 5614165];
    for i in 0..8 {
        assert_eq!(s.channels[i].sample, expected[i]);
    }
}

#[test]
fn test_from_bytes_short_input_is_error() {
    let mut data = frame();
    data.truncate(34);
    assert_eq!(Sample::from_bytes(&data), Err(ClientError::DeserializeError));
    assert_eq!(Sample::from_bytes(&[]), Err(ClientError::DeserializeError));
}

#[test]
fn test_from_bytes_minimum_length_ok() {
    let mut data = frame();
    data.truncate(35);
    assert!(Sample::from_bytes(&data).is_ok());
}

#[test]
fn test_i24_sign_extension_extremes() {
    assert_eq!(Channel::from_be_bytes(0x7F, 0xFF, 0xFF).sample, 8388607);
    assert_eq!(Channel::from_be_bytes(0x80, 0x00, 0x00).sample, -8388608);
    assert_eq!(Channel::from_be_bytes(0x00, 0x00, 0x00).sample, 0);
    assert_eq!(Channel::from_be_bytes(0xFF, 0xFF, 0xFF).sample, -1);
}

#[test]
fn test_i24_order_preserved_near_extremes() {
    // stepping the byte pattern down from the maximum steps the value down
    assert_eq!(Channel::from_be_bytes(0x7F, 0xFF, 0xFE).sample, 8388606);
    // and stepping up from the minimum steps the value up
    assert_eq!(Channel::from_be_bytes(0x80, 0x00, 0x01).sample, -8388607);
    assert!(Channel::from_be_bytes(0x80, 0x00, 0x01).sample > Channel::from_be_bytes(0x80, 0x00, 0x00).sample);
    // byte triples in offset-binary order decode to increasing values
    let ascending: [[u8; 3]; 6] = [
        [0x80, 0x00, 0x00],
        [0xCC, 0x00, 0x01],
        [0xFF, 0xFF, 0xFF],
        [0x00, 0x00, 0x00],
        [0x33, 0xFF, 0xFE],
        [0x7F, 0xFF, 0xFF],
    ];
    for w in ascending.windows(2) {
        let lo = Channel::from_be_bytes(w[0][0], w[0][1], w[0][2]).sample;
        let hi = Channel::from_be_bytes(w[1][0], w[1][1], w[1][2]).sample;
        assert!(lo < hi, "{:?} should decode below {:?}", w[0], w[1]);
    }
}

#[test]
fn test_i24_matches_byteorder() {
    let cases: [[u8; 3]; 8] = [
        [0x00, 0x00, 0x00],
        [0x7F, 0xFF, 0xFF],
        [0x80, 0x00, 0x00],
        [0xFF, 0xFF, 0xFF],
        [0x12, 0x34, 0x56],
        [0xED, 0xCB, 0xAA],
        [0x00, 0x00, 0x01],
        [0x55, 0xAA, 0x55],
    ];
    for c in cases.iter() {
        assert_eq!(
            Channel::from_be_bytes(c[0], c[1], c[2]).sample,
            byteorder::BigEndian::read_i24(c)
        );
    }
}

#[test]
fn test_timestamp_matches_std_le() {
    let data = frame();
    let s = Sample::from_bytes(&data).unwrap();
    assert_eq!(s.timestamp, u32::from_le_bytes([data[0], data[1], data[2], data[3]]));
    assert_eq!(s.sample_number, u32::from_le_bytes([data[4], data[5], data[6], data[7]]));
}

#[test]
fn test_cross_encoding_roundtrip() {
    // the same raw frame carried over either wire encoding decodes equal
    let raw = frame();
    let json_line = encode_as_base64_json(&raw);
    let binary = encode_as_binary(&raw);
    let from_json = decode_json_payload(&json_line).unwrap();
    let from_binary = decode_binary_frame(&binary).unwrap();
    let direct = Sample::from_bytes(&raw).unwrap();
    assert_eq!(from_json, from_binary);
    assert_eq!(from_json, direct);
}

#[test]
fn test_encode_as_base64_json_wire_shape() {
    let raw = frame();
    let line = encode_as_base64_json(&raw);
    let expected = b"{\"C\":200,\"D\":\"AQIDBAUGBwiqu8x///+AAAAAAAH///8SNFbty6oAgABVqlWZ\"}";
    assert_eq!(line, expected.to_vec());
}

#[test]
fn test_encode_as_binary_wire_shape() {
    let raw = frame();
    let msg = encode_as_binary(&raw);
    assert_eq!(msg.len(), 9 + raw.len());
    assert!(msg[..9].iter().all(|&b| b == 0));
    assert_eq!(&msg[9..], &raw[..]);
}

#[test]
fn test_decode_binary_frame_short_is_error() {
    let msg = vec![0u8; 43];
    assert_eq!(decode_binary_frame(&msg), Err(ClientError::DeserializeError));
}

#[test]
fn test_from_base64_invalid_input() {
    let bad = b"!!!not base64!!!".to_vec();
    assert_eq!(Sample::from_base64(&bad), Err(ClientError::InvalidBase64));
}

#[test]
fn test_from_base64_roundtrip() {
    let raw = frame();
    let encoded = base64::encode(&raw).into_bytes();
    let s = Sample::from_base64(&encoded).unwrap();
    assert_eq!(s, Sample::from_bytes(&raw).unwrap());
}

#[test]
fn test_as_lsl_data_projection() {
    let s = Sample::from_bytes(&frame()).unwrap();
    assert_eq!(
        s.as_lsl_data(),
        vec![8388607, -8388608, 1, -1, 1193046, -1193046, 32768, 5614165]
    );
}
