use forza_telemetry::bytes::{read_bool, read_i8, read_u16, read_u32, read_u8};

#[test]
fn can_get_boolean() {
    // Should be true
    let test_bytes = vec![1, 0, 0, 0];
    assert!(read_bool(&test_bytes, 0).unwrap());

    // Should be false
    let test_bytes = vec![0, 0, 0, 0];
    assert!(!read_bool(&test_bytes, 0).unwrap());
}

#[test]
fn can_get_u16() {
    let test_bytes = vec![0, 1];
    let res = read_u16(&test_bytes, 0).unwrap();

    assert!(res == 256);
    assert!(res.to_ne_bytes() == test_bytes.as_slice());
}

#[test]
fn can_get_u32() {
    let test_bytes = vec![1, 0, 0, 0];
    let res = read_u32(&test_bytes, 0).unwrap();

    assert!(res == 1);
    assert!(res.to_ne_bytes() == test_bytes.as_slice());
}

#[test]
fn bool_is_true_for_any_nonzero_word() {
    let test_bytes = vec![0, 0, 2, 0];
    assert!(read_bool(&test_bytes, 0).unwrap());
}

#[test]
fn u8_round_trips_at_offset() {
    let mut buf = vec![0u8; 8];
    buf[5] = 211;
    assert_eq!(read_u8(&buf, 5), Some(211));
}

#[test]
fn i8_round_trips_at_offset() {
    let v: i8 = -77;
    let mut buf = vec![0u8; 8];
    buf[3] = v as u8;
    assert_eq!(read_i8(&buf, 3), Some(v));
}

#[test]
fn u16_round_trips_at_offset() {
    let v: u16 = 0xBEEF;
    let mut buf = vec![0u8; 8];
    buf[2..4].copy_from_slice(&v.to_le_bytes());
    assert_eq!(read_u16(&buf, 2), Some(v));
}

#[test]
fn u32_round_trips_at_offset() {
    let v: u32 = 0xDEAD_BEEF;
    let mut buf = vec![0u8; 8];
    buf[4..8].copy_from_slice(&v.to_le_bytes());
    assert_eq!(read_u32(&buf, 4), Some(v));
}

#[test]
fn f32_round_trips_through_bits() {
    // The schema carries floats as raw bit patterns; reading the four
    // bytes of an encoded float and reinterpreting them restores it.
    let v: f32 = -123.456;
    let mut buf = vec![0u8; 8];
    buf[4..8].copy_from_slice(&v.to_le_bytes());
    let bits = read_u32(&buf, 4).unwrap();
    assert_eq!(f32::from_bits(bits), v);
}

#[test]
fn bool_as_u32_round_trips() {
    let mut buf = vec![0u8; 4];
    buf[0..4].copy_from_slice(&1u32.to_le_bytes());
    assert_eq!(read_bool(&buf, 0), Some(true));
    buf[0..4].copy_from_slice(&0u32.to_le_bytes());
    assert_eq!(read_bool(&buf, 0), Some(false));
}

#[test]
fn reads_past_the_end_return_none() {
    let buf = vec![1u8, 2, 3];
    assert_eq!(read_u8(&buf, 3), None);
    assert_eq!(read_i8(&buf, 3), None);
    assert_eq!(read_u16(&buf, 2), None);
    assert_eq!(read_u32(&buf, 0), None);
    assert_eq!(read_bool(&buf, 0), None);
    let empty: Vec<u8> = Vec::new();
    assert_eq!(read_u16(&empty, 0), None);
}
