//! The unified error taxonomy of the validation layer.
//!
//! Every precondition violation detected before a native call, and every
//! negative status code returned by one, becomes a value of [`Error`].
//! No conversion in this crate panics: each invalid input is reported
//! through exactly one of these variants.

use vstd::prelude::*;

verus! {

/// A status code of the native codec, as documented for its raw interface.
///
/// Negative return values of native calls map onto these; any code outside
/// the documented set maps to [`ErrorCode::Unknown`].
#[derive(Clone, Copy, Debug, Eq, PartialEq, Hash, Structural)]
pub enum ErrorCode {
    /// One or more invalid or out-of-range arguments (native code -1).
    BadArg,
    /// Not enough bytes allocated in the buffer (native code -2).
    BufferTooSmall,
    /// An internal error was detected (native code -3).
    InternalError,
    /// The compressed data passed is corrupted (native code -4).
    InvalidPacket,
    /// Invalid or unsupported request number (native code -5).
    Unimplemented,
    /// An encoder or decoder structure is invalid or already freed (native code -6).
    InvalidState,
    /// Memory allocation has failed (native code -7).
    AllocFail,
    /// Any status code outside the documented set.
    Unknown,
}

impl ErrorCode {
    /// The status code that each variant stands for; `Unknown` answers the
    /// reserved code below the documented range.
    pub open spec fn raw_spec(self) -> i32 {
        match self {
            ErrorCode::BadArg => -1i32,
            ErrorCode::BufferTooSmall => -2i32,
            ErrorCode::InternalError => -3i32,
            ErrorCode::InvalidPacket => -4i32,
            ErrorCode::Unimplemented => -5i32,
            ErrorCode::InvalidState => -6i32,
            ErrorCode::AllocFail => -7i32,
            ErrorCode::Unknown => -8i32,
        }
    }

    /// Which variant a raw status code denotes; total, since every
    /// undocumented code maps to `Unknown`.
    pub open spec fn from_raw_spec(value: i32) -> ErrorCode {
        if value == -1 {
            ErrorCode::BadArg
        } else if value == -2 {
            ErrorCode::BufferTooSmall
        } else if value == -3 {
            ErrorCode::InternalError
        } else if value == -4 {
            ErrorCode::InvalidPacket
        } else if value == -5 {
            ErrorCode::Unimplemented
        } else if value == -6 {
            ErrorCode::InvalidState
        } else if value == -7 {
            ErrorCode::AllocFail
        } else {
            ErrorCode::Unknown
        }
    }

    /// Maps a raw native status code to its variant.
    pub fn from_raw(value: i32) -> (r: ErrorCode)
        ensures
            r == ErrorCode::from_raw_spec(value),
    {
        match value {
            -1 => ErrorCode::BadArg,
            -2 => ErrorCode::BufferTooSmall,
            -3 => ErrorCode::InternalError,
            -4 => ErrorCode::InvalidPacket,
            -5 => ErrorCode::Unimplemented,
            -6 => ErrorCode::InvalidState,
            -7 => ErrorCode::AllocFail,
            _ => ErrorCode::Unknown,
        }
    }

    /// The raw status code of this variant.
    pub fn to_raw(self) -> (r: i32)
        ensures
            r == self.raw_spec(),
    {
        match self {
            ErrorCode::BadArg => -1,
            ErrorCode::BufferTooSmall => -2,
            ErrorCode::InternalError => -3,
            ErrorCode::InvalidPacket => -4,
            ErrorCode::Unimplemented => -5,
            ErrorCode::InvalidState => -6,
            ErrorCode::AllocFail => -7,
            ErrorCode::Unknown => -8,
        }
    }

    /// The diagnostic text of each variant in the fixed lookup table that
    /// the native codec documents for its status codes.
    pub open spec fn description_spec(self) -> Seq<char> {
        match self {
            ErrorCode::BadArg => "invalid argument"@,
            ErrorCode::BufferTooSmall => "buffer too small"@,
            ErrorCode::InternalError => "internal error"@,
            ErrorCode::InvalidPacket => "corrupted stream"@,
            ErrorCode::Unimplemented => "request not implemented"@,
            ErrorCode::InvalidState => "invalid state"@,
            ErrorCode::AllocFail => "memory allocation failed"@,
            ErrorCode::Unknown => "unknown error"@,
        }
    }

    /// Resolves the diagnostic text for this status code.
    pub fn description(self) -> (r: &'static str)
        ensures
            r@ == self.description_spec(),
    {
        match self {
            ErrorCode::BadArg => "invalid argument",
            ErrorCode::BufferTooSmall => "buffer too small",
            ErrorCode::InternalError => "internal error",
            ErrorCode::InvalidPacket => "corrupted stream",
            ErrorCode::Unimplemented => "request not implemented",
            ErrorCode::InvalidState => "invalid state",
            ErrorCode::AllocFail => "memory allocation failed",
            ErrorCode::Unknown => "unknown error",
        }
    }
}

/// Law: mapping any status-code variant to its raw code and back
/// reproduces the variant.
pub proof fn lemma_error_code_round_trip(v: ErrorCode)
    ensures
        ErrorCode::from_raw_spec(v.raw_spec()) == v,
{
}

/// Every failure this layer can report: a local precondition violation,
/// carrying the offending raw value where there is one, or a status code
/// of the native codec.
#[derive(Clone, Copy, Debug, Eq, PartialEq, Hash, Structural)]
pub enum Error {
    /// The native codec reported a failure status.
    Opus(ErrorCode),
    /// A packet guard was asked to wrap an empty buffer.
    EmptyPacket,
    /// A packet guard was asked to wrap a buffer longer than the 32-bit
    /// signed maximum.
    PacketTooLarge,
    /// A raw value outside the fixed application-profile code set.
    InvalidApplication,
    /// A raw value outside the fixed bandwidth code set, or an
    /// out-of-domain bitrate.
    InvalidBandwidth(i32),
    /// A raw value outside the fixed channel code set.
    InvalidChannels(i32),
    /// A raw value outside the fixed sample-rate set.
    InvalidSampleRate(i32),
    /// A raw value outside the fixed signal-hint code set.
    InvalidSignal(i32),
    /// A signal-buffer guard was asked to wrap a buffer longer than the
    /// 32-bit signed maximum.
    SignalsTooLarge,
    /// The native version text was not valid UTF-8.
    MalformedVersion,
}

/// Converts a native return code into a success value or a native-status
/// error: non-negative codes pass through unchanged, negative codes map
/// onto their [`ErrorCode`] variant.
pub fn try_map_opus_error(code: i32) -> (r: Result<i32, Error>)
    ensures
        code >= 0 ==> r == Ok::<i32, Error>(code),
        code < 0 ==> r == Err::<i32, Error>(Error::Opus(ErrorCode::from_raw_spec(code))),
{
    if code >= 0 {
        Ok(code)
    } else {
        Err(Error::Opus(ErrorCode::from_raw(code)))
    }
}

} // verus!
