use kvm::outcome::{decode_result, OsError};

/// A raw result of -4 is the interrupted failure, not a generic one:
/// the caller must be able to retry on it.
#[test]
fn interrupted_is_typed() {
    assert_eq!(decode_result(-4), Err(OsError::Interrupted));
}

/// Non-negative raw results are success and come back unchanged.
#[test]
fn success_passes_through() {
    assert_eq!(decode_result(0), Ok(0));
    assert_eq!(decode_result(12), Ok(12));
    assert_eq!(decode_result(i32::MAX), Ok(i32::MAX));
}

/// Each error code that callers branch on gets its own variant.
#[test]
fn error_codes_get_their_variants() {
    assert_eq!(decode_result(-1), Err(OsError::NotPermitted));
    assert_eq!(decode_result(-11), Err(OsError::WouldBlock));
    assert_eq!(decode_result(-13), Err(OsError::PermissionDenied));
    assert_eq!(decode_result(-14), Err(OsError::BadAddress));
    assert_eq!(decode_result(-16), Err(OsError::Busy));
    assert_eq!(decode_result(-19), Err(OsError::NoSuchDevice));
    assert_eq!(decode_result(-22), Err(OsError::InvalidArgument));
}

/// A code without a variant of its own is carried verbatim.
#[test]
fn unlisted_code_is_kept_verbatim() {
    assert_eq!(decode_result(-7), Err(OsError::Other(7)));
    assert_eq!(decode_result(-1234), Err(OsError::Other(1234)));
    assert_eq!(decode_result(i32::MIN), Err(OsError::Other(2_147_483_648)));
}

/// The typed mapping loses nothing: every code comes back out.
#[test]
fn error_mapping_round_trips() {
    for code in [1u32, 4, 7, 11, 13, 14, 16, 19, 22, 99, 2_147_483_648] {
        assert_eq!(OsError::from_code(code).code(), code);
    }
}
