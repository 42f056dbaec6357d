//! The error taxonomy and the version-text decoding.

use audiopus::{Error, ErrorCode};

#[test]
fn error_code_round_trips() {
    for v in [
        ErrorCode::BadArg,
        ErrorCode::BufferTooSmall,
        ErrorCode::InternalError,
        ErrorCode::InvalidPacket,
        ErrorCode::Unimplemented,
        ErrorCode::InvalidState,
        ErrorCode::AllocFail,
        ErrorCode::Unknown,
    ] {
        assert_eq!(ErrorCode::from_raw(v.to_raw()), v);
    }
}

#[test]
fn error_code_from_documented_codes() {
    assert_eq!(ErrorCode::from_raw(-1), ErrorCode::BadArg);
    assert_eq!(ErrorCode::from_raw(-2), ErrorCode::BufferTooSmall);
    assert_eq!(ErrorCode::from_raw(-3), ErrorCode::InternalError);
    assert_eq!(ErrorCode::from_raw(-4), ErrorCode::InvalidPacket);
    assert_eq!(ErrorCode::from_raw(-5), ErrorCode::Unimplemented);
    assert_eq!(ErrorCode::from_raw(-6), ErrorCode::InvalidState);
    assert_eq!(ErrorCode::from_raw(-7), ErrorCode::AllocFail);
    assert_eq!(ErrorCode::from_raw(-9000), ErrorCode::Unknown);
}

#[test]
fn error_code_descriptions_match_native_table() {
    assert_eq!(ErrorCode::BadArg.description(), "invalid argument");
    assert_eq!(ErrorCode::BufferTooSmall.description(), "buffer too small");
    assert_eq!(ErrorCode::InternalError.description(), "internal error");
    assert_eq!(ErrorCode::InvalidPacket.description(), "corrupted stream");
    assert_eq!(
        ErrorCode::Unimplemented.description(),
        "request not implemented"
    );
    assert_eq!(ErrorCode::InvalidState.description(), "invalid state");
    assert_eq!(
        ErrorCode::AllocFail.description(),
        "memory allocation failed"
    );
    assert_eq!(ErrorCode::Unknown.description(), "unknown error");
}

#[test]
fn error_code_descriptions_are_never_empty() {
    for v in [
        ErrorCode::BadArg,
        ErrorCode::BufferTooSmall,
        ErrorCode::InternalError,
        ErrorCode::InvalidPacket,
        ErrorCode::Unimplemented,
        ErrorCode::InvalidState,
        ErrorCode::AllocFail,
        ErrorCode::Unknown,
    ] {
        assert!(!v.description().is_empty());
    }
}

#[test]
fn try_map_opus_error_passes_non_negative_codes() {
    assert_eq!(audiopus::error::try_map_opus_error(0), Ok(0));
    assert_eq!(audiopus::error::try_map_opus_error(17), Ok(17));
}

#[test]
fn try_map_opus_error_wraps_negative_codes() {
    assert_eq!(
        audiopus::error::try_map_opus_error(-4),
        Err(Error::Opus(ErrorCode::InvalidPacket))
    );
    assert_eq!(
        audiopus::error::try_map_opus_error(-1),
        Err(Error::Opus(ErrorCode::BadArg))
    );
    assert_eq!(
        audiopus::error::try_map_opus_error(-42),
        Err(Error::Opus(ErrorCode::Unknown))
    );
}

#[test]
fn version_text_stops_at_first_null() {
    let bytes = b"libopus 1.3.1\0trailing";
    let text = audiopus::version_from_bytes(bytes).unwrap();
    assert_eq!(text, "libopus 1.3.1");
    assert!(!text.is_empty());
}

#[test]
fn version_text_without_null_uses_whole_sequence() {
    let text = audiopus::version_from_bytes(b"libopus 1.4").unwrap();
    assert_eq!(text, "libopus 1.4");
}

#[test]
fn version_text_decodes_multibyte_utf8() {
    let bytes = [0x6cu8, 0x69, 0x62, 0x20, 0xc3, 0xa9, 0x00];
    let text = audiopus::version_from_bytes(&bytes).unwrap();
    assert_eq!(text, "lib \u{e9}");
}

#[test]
fn version_text_rejects_invalid_utf8() {
    let bytes = [0xffu8, 0xfe, 0x00];
    assert_eq!(
        audiopus::version_from_bytes(&bytes),
        Err(Error::MalformedVersion)
    );
}

#[test]
fn version_text_of_empty_sequence_is_empty() {
    assert_eq!(audiopus::version_from_bytes(b"\0"), Ok(String::new()));
    assert_eq!(audiopus::version_from_bytes(b""), Ok(String::new()));
}
