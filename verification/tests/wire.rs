use filetime_type::bytes::{i64_from_le_bytes, i64_to_le_bytes};
use filetime_type::{FileTime, FileTimeError};

#[test]
fn decode_pins_the_unit() {
    let ft = FileTime::from_le_bytes([0xCE, 0xEB, 0x7D, 0x1A, 0x61, 0x59, 0xCE, 0x01]).unwrap();
    assert_eq!(ft.filetime(), 130139712831482830);
    assert_eq!(ft.seconds(), 13013971283);
    assert_eq!(ft.subsecond_ticks(), 1482830);
    assert_eq!(ft.nanoseconds(), 148283000);
}

#[test]
fn zero_buffer_round_trips() {
    let ft = FileTime::from_le_bytes([0; 8]).unwrap();
    assert_eq!(ft.seconds(), 0);
    assert_eq!(ft.subsecond_ticks(), 0);
    assert_eq!(ft.to_le_bytes(), [0; 8]);
}

#[test]
fn buffers_round_trip() {
    for bytes in [
        [0x01, 0, 0, 0, 0, 0, 0, 0],
        [0, 0x01, 0, 0, 0, 0, 0, 0],
        [0xCE, 0xEB, 0x7D, 0x1A, 0x61, 0x59, 0xCE, 0x01],
        [0xE8, 0x5B, 0xFB, 0xA2, 0x7B, 0x0D, 0xCA, 0x01],
        [0x12, 0x34, 0x56, 0x78, 0x9A, 0xBC, 0xDE, 0x7F],
        [0xFF, 0xFF, 0xFF, 0xFF, 0xFF, 0xFF, 0xFF, 0x7F],
    ] {
        assert_eq!(FileTime::from_le_bytes(bytes).unwrap().to_le_bytes(), bytes);
    }
}

#[test]
fn known_ticks_have_known_bytes() {
    let ft = FileTime::from_i64(128930364000001000).unwrap();
    assert_eq!(ft.to_le_bytes(), [0xE8, 0x5B, 0xFB, 0xA2, 0x7B, 0x0D, 0xCA, 0x01]);
    assert_eq!(
        FileTime::from_i64(i64::MAX).unwrap().to_le_bytes(),
        [0xFF, 0xFF, 0xFF, 0xFF, 0xFF, 0xFF, 0xFF, 0x7F]
    );
}

#[test]
fn buffers_with_the_sign_bit_are_refused() {
    assert_eq!(FileTime::from_le_bytes([0xFF; 8]), Err(FileTimeError::InvalidArgument));
    assert_eq!(
        FileTime::from_le_bytes([0, 0, 0, 0, 0, 0, 0, 0x80]),
        Err(FileTimeError::InvalidArgument)
    );
    assert_eq!(
        FileTime::from_le_bytes((-1_i64).to_le_bytes()),
        Err(FileTimeError::InvalidArgument)
    );
}

#[test]
fn reading_agrees_with_std() {
    for value in [
        0_i64,
        1,
        -1,
        255,
        256,
        -256,
        130139712831482830,
        -130139712831482830,
        i64::MAX,
        i64::MIN,
        i64::MIN + 1,
    ] {
        assert_eq!(i64_from_le_bytes(value.to_le_bytes()), value);
    }
    assert_eq!(i64_from_le_bytes([0x01, 0x02, 0, 0, 0, 0, 0, 0]), 0x0201);
}

#[test]
fn writing_agrees_with_std() {
    for value in [
        0_i64,
        1,
        -1,
        255,
        256,
        -256,
        130139712831482830,
        -130139712831482830,
        i64::MAX,
        i64::MIN,
        i64::MIN + 1,
    ] {
        assert_eq!(i64_to_le_bytes(value), value.to_le_bytes());
    }
    assert_eq!(i64_to_le_bytes(0x0201), [0x01, 0x02, 0, 0, 0, 0, 0, 0]);
}
