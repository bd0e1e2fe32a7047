use caching_client::{CacheEntry, Error, Timestamp};

fn entry(expires: Option<(i64, u32)>, value: &[u8]) -> CacheEntry {
    CacheEntry {
        expires: expires.map(|(secs, nanos)| Timestamp { secs, nanos }),
        value: value.to_vec(),
    }
}

#[test]
fn record_without_expiry_is_tag_length_value() {
    let bytes = entry(None, b"hi").encode();
    assert_eq!(bytes, vec![0, 2, 0, 0, 0, 0, 0, 0, 0, b'h', b'i']);
}

#[test]
fn record_with_expiry_holds_seconds_then_nanoseconds() {
    let bytes = entry(Some((0x0102_0304_0506_0708, 0x0a0b_0c0d)), b"x").encode();
    assert_eq!(
        bytes,
        vec![
            1, // tag
            8, 7, 6, 5, 4, 3, 2, 1, // seconds, little-endian
            0x0d, 0x0c, 0x0b, 0x0a, // nanoseconds, little-endian
            1, 0, 0, 0, 0, 0, 0, 0, // length
            b'x',
        ]
    );
}

#[test]
fn seconds_before_the_epoch_are_in_twos_complement() {
    let bytes = entry(Some((-2, 0)), b"").encode();
    assert_eq!(
        bytes,
        vec![1, 0xfe, 0xff, 0xff, 0xff, 0xff, 0xff, 0xff, 0xff, 0, 0, 0, 0, 0, 0, 0, 0, 0, 0, 0, 0]
    );
}

#[test]
fn record_of_an_empty_value_has_length_zero() {
    assert_eq!(entry(None, b"").encode(), vec![0, 0, 0, 0, 0, 0, 0, 0, 0]);
}

#[test]
fn length_field_counts_the_value() {
    let value = vec![7u8; 300];
    let bytes = entry(None, &value).encode();
    assert_eq!(bytes.len(), 1 + 8 + 300);
    assert_eq!(&bytes[1..9], &[0x2c, 0x01, 0, 0, 0, 0, 0, 0]);
    assert_eq!(&bytes[9..], &value[..]);
}

#[test]
fn round_trip_with_expiry() {
    let e = entry(Some((1_700_000_000, 123_456_789)), b"hello");
    assert_eq!(CacheEntry::decode(&e.encode()), Ok(e));
}

#[test]
fn round_trip_without_expiry() {
    let e = entry(None, b"hello");
    let back = CacheEntry::decode(&e.encode()).unwrap();
    assert_eq!(back.expires, None);
    assert_eq!(back.value, b"hello".to_vec());
}

#[test]
fn round_trip_of_an_empty_value() {
    let with = entry(Some((5, 6)), b"");
    let without = entry(None, b"");
    assert_eq!(CacheEntry::decode(&with.encode()), Ok(with));
    assert_eq!(CacheEntry::decode(&without.encode()), Ok(without));
}

#[test]
fn round_trip_at_the_ends_of_the_range() {
    for secs in [i64::MIN, -1, 0, 1, i64::MAX] {
        for nanos in [0, 999_999_999, 1_000_000_000, u32::MAX] {
            let e = entry(Some((secs, nanos)), &[0, 255, 1, 254]);
            assert_eq!(CacheEntry::decode(&e.encode()), Ok(e));
        }
    }
}

#[test]
fn round_trip_of_every_byte_value() {
    let value: Vec<u8> = (0..=255).collect();
    let e = entry(Some((42, 0)), &value);
    assert_eq!(CacheEntry::decode(&e.encode()), Ok(e));
}

#[test]
fn decoded_record_encodes_to_the_same_bytes() {
    let bytes = vec![1, 9, 0, 0, 0, 0, 0, 0, 0, 4, 0, 0, 0, 3, 0, 0, 0, 0, 0, 0, 0, 1, 2, 3];
    let e = CacheEntry::decode(&bytes).unwrap();
    assert_eq!(e, entry(Some((9, 4)), &[1, 2, 3]));
    assert_eq!(e.encode(), bytes);
}

#[test]
fn empty_input_is_no_record() {
    assert_eq!(CacheEntry::decode(&[]), Err(Error::Decode));
}

#[test]
fn unknown_tag_is_no_record() {
    assert_eq!(CacheEntry::decode(&[2, 0, 0, 0, 0, 0, 0, 0, 0]), Err(Error::Decode));
    assert_eq!(CacheEntry::decode(&[255, 0, 0, 0, 0, 0, 0, 0, 0]), Err(Error::Decode));
}

#[test]
fn truncated_expiry_is_no_record() {
    assert_eq!(CacheEntry::decode(&[1]), Err(Error::Decode));
    assert_eq!(CacheEntry::decode(&[1, 0, 0, 0, 0, 0, 0, 0, 0, 0, 0, 0]), Err(Error::Decode));
}

#[test]
fn missing_length_is_no_record() {
    assert_eq!(CacheEntry::decode(&[0]), Err(Error::Decode));
    assert_eq!(CacheEntry::decode(&[0, 0, 0, 0, 0, 0, 0, 0]), Err(Error::Decode));
    assert_eq!(
        CacheEntry::decode(&[1, 0, 0, 0, 0, 0, 0, 0, 0, 0, 0, 0, 0, 1, 0, 0]),
        Err(Error::Decode)
    );
}

#[test]
fn truncated_value_is_no_record() {
    let mut bytes = entry(None, b"hello").encode();
    bytes.pop();
    assert_eq!(CacheEntry::decode(&bytes), Err(Error::Decode));
}

#[test]
fn trailing_bytes_are_no_record() {
    let mut bytes = entry(Some((1, 2)), b"hello").encode();
    bytes.push(0);
    assert_eq!(CacheEntry::decode(&bytes), Err(Error::Decode));
}

#[test]
fn length_beyond_the_input_is_no_record() {
    assert_eq!(
        CacheEntry::decode(&[0, 0xff, 0xff, 0xff, 0xff, 0xff, 0xff, 0xff, 0xff, 1, 2]),
        Err(Error::Decode)
    );
}

#[test]
fn entry_without_expiry_is_always_fresh() {
    let e = entry(None, b"v");
    assert!(e.is_fresh(&Timestamp { secs: i64::MIN, nanos: 0 }));
    assert!(e.is_fresh(&Timestamp { secs: 0, nanos: 0 }));
    assert!(e.is_fresh(&Timestamp { secs: i64::MAX, nanos: u32::MAX }));
}

#[test]
fn entry_is_fresh_strictly_before_its_expiry() {
    let e = entry(Some((100, 500)), b"v");
    assert!(e.is_fresh(&Timestamp { secs: 99, nanos: 999_999_999 }));
    assert!(e.is_fresh(&Timestamp { secs: 100, nanos: 499 }));
    assert!(!e.is_fresh(&Timestamp { secs: 100, nanos: 500 }));
    assert!(!e.is_fresh(&Timestamp { secs: 100, nanos: 501 }));
    assert!(!e.is_fresh(&Timestamp { secs: 101, nanos: 0 }));
}
