use kvm::codec::{encode, Direction, EncodeError, SIZE_FIELD_CAPACITY};

/// The published "create VM" request code on the reference platform.
#[test]
fn golden_create_vm() {
    assert_eq!(encode(0xAE, 0x01, Direction::NoData, 0), Ok(0xAE01));
}

/// The published "get special registers" request code: direction
/// device-to-host, payload the 312-byte special-register record.
#[test]
fn golden_get_special_registers() {
    assert_eq!(encode(0xAE, 0x83, Direction::Read, 312), Ok(0x8138_AE83));
}

/// More published request codes of the reference platform, one per
/// direction.
#[test]
fn golden_more_request_codes() {
    // get API version: no payload
    assert_eq!(encode(0xAE, 0x00, Direction::NoData, 0), Ok(0xAE00));
    // run guest: no payload
    assert_eq!(encode(0xAE, 0x80, Direction::NoData, 0), Ok(0xAE80));
    // get general-purpose registers: 144-byte record, device-to-host
    assert_eq!(encode(0xAE, 0x81, Direction::Read, 144), Ok(0x8090_AE81));
    // set general-purpose registers: host-to-device
    assert_eq!(encode(0xAE, 0x82, Direction::Write, 144), Ok(0x4090_AE82));
    // set user memory region: 32-byte record, host-to-device
    assert_eq!(encode(0xAE, 0x46, Direction::Write, 32), Ok(0x4020_AE46));
    // translate address: 32-byte record, both ways
    assert_eq!(encode(0xAE, 0x85, Direction::ReadWrite, 32), Ok(0xC020_AE85));
}

/// Encoding is deterministic: the same descriptor always gets the same
/// code.
#[test]
fn encode_deterministic() {
    let a = encode(0xAE, 0x46, Direction::Write, 32);
    let b = encode(0xAE, 0x46, Direction::Write, 32);
    assert_eq!(a, b);
}

/// Descriptors that differ in one field get distinct codes.
#[test]
fn encode_distinct_descriptors_distinct_codes() {
    let base = encode(0xAE, 0x46, Direction::Write, 32).unwrap();
    assert_ne!(base, encode(0xAD, 0x46, Direction::Write, 32).unwrap());
    assert_ne!(base, encode(0xAE, 0x47, Direction::Write, 32).unwrap());
    assert_ne!(base, encode(0xAE, 0x46, Direction::Read, 32).unwrap());
    assert_ne!(base, encode(0xAE, 0x46, Direction::ReadWrite, 32).unwrap());
    assert_ne!(base, encode(0xAE, 0x46, Direction::Write, 33).unwrap());
}

/// A request without a payload ignores the supplied size.
#[test]
fn encode_no_data_ignores_size() {
    let with_zero = encode(0xAE, 0x01, Direction::NoData, 0);
    let with_five = encode(0xAE, 0x01, Direction::NoData, 5);
    assert_eq!(with_zero, with_five);
    assert_eq!(with_zero, Ok(0xAE01));
}

/// A size at or above the size field's capacity is rejected, never
/// truncated.
#[test]
fn encode_rejects_oversize_payload() {
    assert_eq!(
        encode(0xAE, 0x01, Direction::Write, SIZE_FIELD_CAPACITY),
        Err(EncodeError::OversizePayload)
    );
    assert_eq!(
        encode(0xAE, 0x01, Direction::Read, 0xFFFF),
        Err(EncodeError::OversizePayload)
    );
    // the largest size that still fits
    assert!(encode(0xAE, 0x01, Direction::Write, SIZE_FIELD_CAPACITY - 1).is_ok());
}
