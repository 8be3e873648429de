//! Tests of the data-section decoder on hand-encoded buffers.

use maxminddb::decoder::decode_at;
use maxminddb::reader::to_usize;
use maxminddb::{MaxMindDBError, Value};

/// A control byte (or bytes) for primary type `t` and payload size `size`.
fn ctrl(t: u8, size: usize) -> Vec<u8> {
    let mut out: Vec<u8> = Vec::new();
    if size < 29 {
        out.push((t << 5) | size as u8);
    } else if size <= 284 {
        out.push((t << 5) | 29);
        out.push((size - 29) as u8);
    } else if size <= 65820 {
        out.push((t << 5) | 30);
        let m = size - 285;
        out.push((m >> 8) as u8);
        out.push((m & 0xff) as u8);
    } else {
        out.push((t << 5) | 31);
        let m = size - 65821;
        out.push((m >> 16) as u8);
        out.push(((m >> 8) & 0xff) as u8);
        out.push((m & 0xff) as u8);
    }
    out
}

/// Control bytes for an extended type `real` (8 or above).
fn ext_ctrl(real: u8, size: usize) -> Vec<u8> {
    let mut out = ctrl(0, size);
    out.insert(1, real - 7);
    out
}

fn enc_str(s: &str) -> Vec<u8> {
    let mut out = ctrl(2, s.len());
    out.extend_from_slice(s.as_bytes());
    out
}

/// The size-field matrix: each size that exercises a boundary of the four
/// size encodings round-trips through the decoder, consuming exactly the
/// encoder's bytes.
#[test]
fn test_size_field_round_trip() {
    let sizes = [0usize, 1, 28, 29, 284, 285, 65820, 65821, 16843035];
    for &n in sizes.iter() {
        let mut buf = ctrl(4, n);
        buf.extend(std::iter::repeat(0xaau8).take(n));
        let total = buf.len();
        match decode_at(&buf, 0, 0, 512) {
            Ok((Value::Bytes(b), end)) => {
                assert_eq!(b.len(), n, "payload length for size {}", n);
                assert_eq!(end, total, "cursor for size {}", n);
                assert!(b.iter().all(|&x| x == 0xaa));
            }
            other => panic!("size {} decoded to {:?}", n, other),
        }
    }
}

/// Pointer resolution round-trips: decoding the pointer yields the value at
/// its target, and the cursor moves past the pointer's own bytes alone.
#[test]
fn test_pointer_round_trip() {
    // Target value at offset 0; pointers of three sizes behind it.
    let mut buf = enc_str("hello");
    let direct_end = buf.len();

    // ps == 0: target 0 fits in 11 bits.
    let p0 = buf.len();
    buf.push((1 << 5) | 0); // ps = 0, high bits 0
    buf.push(0); // low byte 0

    // ps == 3: a raw 32-bit target.
    let p3 = buf.len();
    buf.push((1 << 5) | (3 << 3));
    buf.extend_from_slice(&[0, 0, 0, 0]);

    match decode_at(&buf, 0, 0, 512) {
        Ok((Value::Text(s), end)) => {
            assert_eq!(s, "hello");
            assert_eq!(end, direct_end);
        }
        other => panic!("direct decode: {:?}", other),
    }
    match decode_at(&buf, 0, p0, 512) {
        Ok((Value::Text(s), end)) => {
            assert_eq!(s, "hello");
            assert_eq!(end, p0 + 2);
        }
        other => panic!("short pointer: {:?}", other),
    }
    match decode_at(&buf, 0, p3, 512) {
        Ok((Value::Text(s), end)) => {
            assert_eq!(s, "hello");
            assert_eq!(end, p3 + 5);
        }
        other => panic!("raw pointer: {:?}", other),
    }
}

/// A medium pointer (ps == 1) addresses targets from 2048 up.
#[test]
fn test_pointer_medium_form() {
    let target = 2500usize;
    let mut buf = vec![0u8; target];
    buf.extend(enc_str("deep"));
    let p = buf.len();
    let v = target - 2048;
    buf.push((1 << 5) | (1 << 3) | ((v >> 16) as u8));
    buf.push(((v >> 8) & 0xff) as u8);
    buf.push((v & 0xff) as u8);
    match decode_at(&buf, 0, p, 512) {
        Ok((Value::Text(s), end)) => {
            assert_eq!(s, "deep");
            assert_eq!(end, p + 3);
        }
        other => panic!("medium pointer: {:?}", other),
    }
}

/// A pointer chain ending in itself is reported as a cycle, not followed
/// forever.
#[test]
fn test_pointer_cycle() {
    // A pointer at offset 0 whose target is offset 0.
    let buf = vec![(1 << 5) | 0u8, 0u8];
    match decode_at(&buf, 0, 0, 512) {
        Err(e) => assert_eq!(
            e,
            MaxMindDBError::InvalidDatabaseError("pointer cycle".to_owned())
        ),
        Ok(v) => panic!("cycle decoded to {:?}", v),
    }
}

/// A pointer whose target lies beyond the buffer is out of range.
#[test]
fn test_pointer_out_of_range() {
    let buf = vec![(1 << 5) | 7u8, 0xffu8];
    match decode_at(&buf, 0, 0, 512) {
        Err(e) => assert_eq!(
            e,
            MaxMindDBError::InvalidDatabaseError("pointer out of range".to_owned())
        ),
        Ok(v) => panic!("decoded to {:?}", v),
    }
}

/// Unsigned integers decode big-endian with exactly `size` bytes;
/// zero-length integers decode to 0.
#[test]
fn test_integers() {
    let buf = ctrl(5, 0);
    match decode_at(&buf, 0, 0, 512) {
        Ok((Value::Uint16(n), end)) => {
            assert_eq!(n, 0);
            assert_eq!(end, 1);
        }
        other => panic!("zero-length u16: {:?}", other),
    }

    let mut buf = ctrl(5, 1);
    buf.push(100);
    match decode_at(&buf, 0, 0, 512) {
        Ok((Value::Uint16(n), _)) => assert_eq!(n, 100),
        other => panic!("u16: {:?}", other),
    }

    let mut buf = ctrl(6, 4);
    buf.extend_from_slice(&[0x10, 0, 0, 0]);
    match decode_at(&buf, 0, 0, 512) {
        Ok((Value::Uint32(n), _)) => assert_eq!(n, 268435456),
        other => panic!("u32: {:?}", other),
    }

    let mut buf = ext_ctrl(9, 8);
    buf.extend_from_slice(&[0x10, 0, 0, 0, 0, 0, 0, 0]);
    match decode_at(&buf, 0, 0, 512) {
        Ok((Value::Uint64(n), _)) => assert_eq!(n, 1152921504606846976),
        other => panic!("u64: {:?}", other),
    }

    let mut buf = ext_ctrl(10, 16);
    buf.push(0x01);
    buf.extend_from_slice(&[0u8; 15]);
    match decode_at(&buf, 0, 0, 512) {
        Ok((Value::Uint128(n), _)) => {
            assert_eq!(n, 1329227995784915872903807060280344576)
        }
        other => panic!("u128: {:?}", other),
    }
}

/// Signed 32-bit integers are sign-extended from `size` bytes.
#[test]
fn test_int32_sign_extension() {
    let mut buf = ext_ctrl(8, 4);
    buf.extend_from_slice(&[0xf0, 0, 0, 0]);
    match decode_at(&buf, 0, 0, 512) {
        Ok((Value::Int32(n), _)) => assert_eq!(n, -268435456),
        other => panic!("i32 4 bytes: {:?}", other),
    }

    let mut buf = ext_ctrl(8, 2);
    buf.extend_from_slice(&[0xff, 0xfe]);
    match decode_at(&buf, 0, 0, 512) {
        Ok((Value::Int32(n), _)) => assert_eq!(n, -2),
        other => panic!("i32 2 bytes: {:?}", other),
    }

    let mut buf = ext_ctrl(8, 2);
    buf.extend_from_slice(&[0x7f, 0xfe]);
    match decode_at(&buf, 0, 0, 512) {
        Ok((Value::Int32(n), _)) => assert_eq!(n, 0x7ffe),
        other => panic!("i32 positive: {:?}", other),
    }

    let buf = ext_ctrl(8, 0);
    match decode_at(&buf, 0, 0, 512) {
        Ok((Value::Int32(n), _)) => assert_eq!(n, 0),
        other => panic!("i32 empty: {:?}", other),
    }
}

/// Booleans carry their value in the size field and have no payload.
#[test]
fn test_bool_and_floats() {
    let buf = ext_ctrl(14, 1);
    match decode_at(&buf, 0, 0, 512) {
        Ok((Value::Bool(b), end)) => {
            assert!(b);
            assert_eq!(end, 2);
        }
        other => panic!("bool true: {:?}", other),
    }
    let buf = ext_ctrl(14, 0);
    match decode_at(&buf, 0, 0, 512) {
        Ok((Value::Bool(b), _)) => assert!(!b),
        other => panic!("bool false: {:?}", other),
    }

    let mut buf = ctrl(3, 8);
    buf.extend_from_slice(&42.123456f64.to_bits().to_be_bytes());
    match decode_at(&buf, 0, 0, 512) {
        Ok((Value::DoubleBits(bits), _)) => {
            assert_eq!(f64::from_bits(bits), 42.123456)
        }
        other => panic!("double: {:?}", other),
    }

    let mut buf = ext_ctrl(15, 4);
    buf.extend_from_slice(&1.1f32.to_bits().to_be_bytes());
    match decode_at(&buf, 0, 0, 512) {
        Ok((Value::FloatBits(bits), _)) => assert_eq!(f32::from_bits(bits), 1.1),
        other => panic!("float: {:?}", other),
    }
}

/// A double of the wrong width names its size in the error.
#[test]
fn test_double_of_bad_size() {
    let mut buf = ctrl(3, 2);
    buf.extend_from_slice(&[0x40, 0x45]);
    match decode_at(&buf, 0, 0, 512) {
        Err(e) => assert_eq!(
            e,
            MaxMindDBError::InvalidDatabaseError("double of size 2".to_owned())
        ),
        Ok(v) => panic!("decoded to {:?}", v),
    }
}

/// An unknown extended tag names itself in the error.
#[test]
fn test_unknown_type() {
    let buf = ext_ctrl(23, 0);
    match decode_at(&buf, 0, 0, 512) {
        Err(e) => assert_eq!(
            e,
            MaxMindDBError::InvalidDatabaseError("unknown type: 23".to_owned())
        ),
        Ok(v) => panic!("decoded to {:?}", v),
    }
}

/// A truncated payload is an EOF in the data section.
#[test]
fn test_truncated_payload() {
    let mut buf = ctrl(2, 10);
    buf.extend_from_slice(b"abc");
    match decode_at(&buf, 0, 0, 512) {
        Err(e) => assert_eq!(
            e,
            MaxMindDBError::InvalidDatabaseError("unexpected EOF in data section".to_owned())
        ),
        Ok(v) => panic!("decoded to {:?}", v),
    }
}

/// Maps decode keys (which may themselves be pointers) and values in order.
#[test]
fn test_map_with_pointer_key() {
    // A string at offset 0, then a map whose single key is a pointer to it.
    let mut buf = enc_str("name");
    let map_at = buf.len();
    buf.extend(ctrl(7, 1));
    buf.push((1 << 5) | 0);
    buf.push(0); // pointer key -> "name"
    buf.extend(enc_str("value"));
    match decode_at(&buf, 0, map_at, 512) {
        Ok((Value::Dict(entries), end)) => {
            assert_eq!(entries.len(), 1);
            assert_eq!(entries[0].0, "name");
            match &entries[0].1 {
                Value::Text(s) => assert_eq!(s, "value"),
                other => panic!("map value: {:?}", other),
            }
            assert_eq!(end, buf.len());
        }
        other => panic!("map: {:?}", other),
    }
}

/// A map key that is not a string is rejected.
#[test]
fn test_map_with_non_string_key() {
    let mut buf = ctrl(7, 1);
    buf.extend(ctrl(5, 1));
    buf.push(1); // u16 key
    buf.extend(enc_str("value"));
    match decode_at(&buf, 0, 0, 512) {
        Err(e) => assert_eq!(
            e,
            MaxMindDBError::InvalidDatabaseError("map key is not a string".to_owned())
        ),
        Ok(v) => panic!("decoded to {:?}", v),
    }
}

/// Folding big-endian bytes onto a base nibble.
#[test]
fn test_to_usize() {
    assert_eq!(to_usize(0, &[]), 0);
    assert_eq!(to_usize(0, &[1, 2, 3]), 66051);
    assert_eq!(to_usize(0x0f, &[0xff, 0xff, 0xff]), 0x0fffffff);
    assert_eq!(to_usize(0, &[0x01, 0x00, 0x00, 0x00]), 16777216);
}
