use chkp_counter::errors::TestCounterError;
use chkp_counter::state::{i64_from_le_bytes, i64_to_le_bytes, TestCounterAccount};

#[test]
fn encode_uses_little_endian_fixed_layout() {
    let state = TestCounterAccount { counter: 1, timestamp: -1, client_timestamp: 4 };
    let bytes = state.encode();
    let expected = vec![
        1, 0, 0, 0, // counter, u32 little-endian
        255, 255, 255, 255, 255, 255, 255, 255, // timestamp -1, i64 little-endian
        4, 0, 0, 0, 0, 0, 0, 0, // client timestamp, i64 little-endian
    ];
    assert_eq!(bytes, expected);
}

#[test]
fn encode_multibyte_values() {
    let state = TestCounterAccount { counter: 0x01020304, timestamp: 258, client_timestamp: -2 };
    let bytes = state.encode();
    let expected = vec![
        4, 3, 2, 1, // 0x01020304 little-endian
        2, 1, 0, 0, 0, 0, 0, 0, // 258 = 0x102
        254, 255, 255, 255, 255, 255, 255, 255, // -2
    ];
    assert_eq!(bytes, expected);
}

#[test]
fn decode_reads_all_three_fields() {
    let mut buffer = vec![7, 0, 0, 0];
    buffer.extend(vec![200, 1, 0, 0, 0, 0, 0, 0]); // 456 little-endian
    buffer.extend(vec![255, 255, 255, 255, 255, 255, 255, 255]); // -1
    let state = TestCounterAccount::decode(&buffer).unwrap();
    assert_eq!(state.counter, 7);
    assert_eq!(state.timestamp, 456);
    assert_eq!(state.client_timestamp, -1);
}

#[test]
fn decode_encode_round_trip() {
    let state = TestCounterAccount { counter: 41, timestamp: 99, client_timestamp: -7 };
    let bytes = state.encode();
    let decoded = TestCounterAccount::decode(&bytes).unwrap();
    assert_eq!(decoded, state);
    // Encoding the decoded record reproduces the buffer exactly.
    assert_eq!(decoded.encode(), bytes);
}

#[test]
fn decode_rejects_short_buffers() {
    assert_eq!(TestCounterAccount::decode(&[]), Err(TestCounterError::MalformedState));
    assert_eq!(TestCounterAccount::decode(&[0; 3]), Err(TestCounterError::MalformedState));
    assert_eq!(TestCounterAccount::decode(&[0; 11]), Err(TestCounterError::MalformedState));
}

#[test]
fn decode_without_client_timestamp_reads_zero() {
    let mut buffer = vec![9, 0, 0, 0];
    buffer.extend(vec![1, 0, 0, 0, 0, 0, 0, 0]);
    let state = TestCounterAccount::decode(&buffer).unwrap();
    assert_eq!(state.counter, 9);
    assert_eq!(state.timestamp, 1);
    assert_eq!(state.client_timestamp, 0);
}

#[test]
fn store_into_keeps_buffer_length() {
    let state = TestCounterAccount { counter: 3, timestamp: 5, client_timestamp: 6 };
    let mut long_buffer = vec![9; 24];
    state.store_into(&mut long_buffer);
    assert_eq!(long_buffer.len(), 24);
    assert_eq!(TestCounterAccount::decode(&long_buffer).unwrap(), state);
    // Bytes past the record are untouched.
    assert_eq!(&long_buffer[20..], &[9, 9, 9, 9]);

    let mut short_buffer = vec![9; 12];
    state.store_into(&mut short_buffer);
    assert_eq!(short_buffer.len(), 12);
    let reread = TestCounterAccount::decode(&short_buffer).unwrap();
    assert_eq!(reread.counter, 3);
    assert_eq!(reread.timestamp, 5);
    // The client timestamp had no room, so it reads back as zero.
    assert_eq!(reread.client_timestamp, 0);
}

#[test]
fn i64_bytes_round_trip() {
    for value in [0i64, 1, -1, 4, i64::MAX, i64::MIN, -123456789] {
        let bytes = i64_to_le_bytes(value);
        assert_eq!(bytes.len(), 8);
        assert_eq!(i64_from_le_bytes(&bytes), value);
    }
    assert_eq!(i64_to_le_bytes(-1), vec![255; 8]);
    assert_eq!(i64_to_le_bytes(i64::MIN), vec![0, 0, 0, 0, 0, 0, 0, 128]);
}
