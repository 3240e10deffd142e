use authority_permission::codec::{deserialize_u64, serialize_u64, RECORD_WIDTH};

#[test]
fn record_is_eight_bytes_most_significant_first() {
    assert_eq!(RECORD_WIDTH, 8);
    assert_eq!(serialize_u64(0), vec![0, 0, 0, 0, 0, 0, 0, 0]);
    assert_eq!(serialize_u64(1), vec![0, 0, 0, 0, 0, 0, 0, 1]);
    assert_eq!(serialize_u64(256), vec![0, 0, 0, 0, 0, 0, 1, 0]);
    assert_eq!(serialize_u64(0x0102_0304_0506_0708), vec![1, 2, 3, 4, 5, 6, 7, 8]);
    assert_eq!(serialize_u64(u64::MAX), vec![255; 8]);
}

#[test]
fn serialize_agrees_with_to_be_bytes() {
    for value in [0u64, 1, 255, 256, 65_535, 65_536, 1 << 32, (1 << 56) - 1, 1 << 63, u64::MAX] {
        assert_eq!(serialize_u64(value), u64::to_be_bytes(value).to_vec());
    }
}

#[test]
fn deserialize_reads_eight_bytes() {
    assert_eq!(deserialize_u64(vec![0, 0, 0, 0, 0, 0, 0, 0]), Some(0));
    assert_eq!(deserialize_u64(vec![0, 0, 0, 0, 0, 0, 0, 1]), Some(1));
    assert_eq!(deserialize_u64(vec![0, 0, 0, 0, 0, 0, 1, 0]), Some(256));
    assert_eq!(deserialize_u64(vec![1, 2, 3, 4, 5, 6, 7, 8]), Some(0x0102_0304_0506_0708));
    assert_eq!(deserialize_u64(vec![255; 8]), Some(u64::MAX));
}

#[test]
fn deserialize_undoes_serialize() {
    for value in [0u64, 1, 2, 254, 255, 256, 1 << 16, 1 << 40, u64::MAX - 1, u64::MAX] {
        assert_eq!(deserialize_u64(serialize_u64(value)), Some(value));
    }
}

#[test]
fn deserialize_agrees_with_from_be_bytes() {
    for bytes in [[0u8; 8], [1, 0, 0, 0, 0, 0, 0, 0], [9, 8, 7, 6, 5, 4, 3, 2], [255; 8]] {
        assert_eq!(deserialize_u64(bytes.to_vec()), Some(u64::from_be_bytes(bytes)));
    }
}

#[test]
fn short_record_is_malformed() {
    assert_eq!(deserialize_u64(Vec::new()), None);
    assert_eq!(deserialize_u64(vec![1]), None);
    assert_eq!(deserialize_u64(vec![0, 1]), None);
    assert_eq!(deserialize_u64(vec![1, 2, 3]), None);
    assert_eq!(deserialize_u64(vec![0, 0, 0, 0, 0, 0, 5]), None);
}

#[test]
fn long_record_is_malformed() {
    assert_eq!(deserialize_u64(vec![0, 0, 0, 0, 0, 0, 0, 7, 9]), None);
    assert_eq!(deserialize_u64(vec![1, 2, 3, 4, 5, 6, 7, 8, 9, 10, 11]), None);
    assert_eq!(deserialize_u64(vec![0; 16]), None);
}
