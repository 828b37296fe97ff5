//! Results and options of the SIMD text validation and transcoding
//! routines.

use vstd::prelude::*;

pub mod encoding;

verus! {

/// Error codes returned by the routines.
#[derive(Copy, Clone, Debug, PartialEq, Eq, Structural)]
pub enum ErrorCode {
    Success,
    HeaderBits,
    TooShort,
    TooLong,
    Overlong,
    TooLarge,
    Surrogate,
    InvalidBase64Character,
    Base64InputRemainder,
    Base64ExtraBits,
    OutputBufferTooSmall,
    Other,
}

/// The error code a raw code stands for; every code past the known ones is
/// `Other`.
pub open spec fn error_code_of(v: i32) -> ErrorCode {
    if v == 0 {
        ErrorCode::Success
    } else if v == 1 {
        ErrorCode::HeaderBits
    } else if v == 2 {
        ErrorCode::TooShort
    } else if v == 3 {
        ErrorCode::TooLong
    } else if v == 4 {
        ErrorCode::Overlong
    } else if v == 5 {
        ErrorCode::TooLarge
    } else if v == 6 {
        ErrorCode::Surrogate
    } else if v == 7 {
        ErrorCode::InvalidBase64Character
    } else if v == 8 {
        ErrorCode::Base64InputRemainder
    } else if v == 9 {
        ErrorCode::Base64ExtraBits
    } else if v == 10 {
        ErrorCode::OutputBufferTooSmall
    } else {
        ErrorCode::Other
    }
}

/// The raw code of each error, as the routines report it.
pub open spec fn error_code_value(e: ErrorCode) -> i32 {
    match e {
        ErrorCode::Success => 0,
        ErrorCode::HeaderBits => 1,
        ErrorCode::TooShort => 2,
        ErrorCode::TooLong => 3,
        ErrorCode::Overlong => 4,
        ErrorCode::TooLarge => 5,
        ErrorCode::Surrogate => 6,
        ErrorCode::InvalidBase64Character => 7,
        ErrorCode::Base64InputRemainder => 8,
        ErrorCode::Base64ExtraBits => 9,
        ErrorCode::OutputBufferTooSmall => 10,
        ErrorCode::Other => 11,
    }
}

impl ErrorCode {
    /// The error code for the raw code `v`.
    pub fn from_i32(v: i32) -> (r: Self)
        ensures
            r == error_code_of(v),
    {
        if v == 0 {
            ErrorCode::Success
        } else if v == 1 {
            ErrorCode::HeaderBits
        } else if v == 2 {
            ErrorCode::TooShort
        } else if v == 3 {
            ErrorCode::TooLong
        } else if v == 4 {
            ErrorCode::Overlong
        } else if v == 5 {
            ErrorCode::TooLarge
        } else if v == 6 {
            ErrorCode::Surrogate
        } else if v == 7 {
            ErrorCode::InvalidBase64Character
        } else if v == 8 {
            ErrorCode::Base64InputRemainder
        } else if v == 9 {
            ErrorCode::Base64ExtraBits
        } else if v == 10 {
            ErrorCode::OutputBufferTooSmall
        } else {
            ErrorCode::Other
        }
    }
}

/// Decoding a raw code gives back the error it was made from.
pub proof fn lemma_error_code_round_trip(e: ErrorCode)
    ensures
        error_code_of(error_code_value(e)) == e,
{
}

/// A result as the routines hand it over: a raw error code and a count.
#[derive(Copy, Clone, Debug, PartialEq, Eq, Structural)]
pub struct FfiResult {
    pub error: i32,
    pub count: usize,
}

/// Result of an operation. On success, `count` is the number of code units
/// written or validated; on error, it is the position of the error in the
/// input.
#[derive(Copy, Clone, Debug, PartialEq, Eq, Structural)]
pub struct SimdUtfResult {
    pub error: ErrorCode,
    pub count: usize,
}

impl SimdUtfResult {
    /// The result a raw result stands for.
    pub fn from_ffi(r: FfiResult) -> (res: Self)
        ensures
            res.error == error_code_of(r.error),
            res.count == r.count,
    {
        SimdUtfResult { error: ErrorCode::from_i32(r.error), count: r.count }
    }

    /// Returns `true` if the operation succeeded.
    pub fn is_ok(&self) -> (r: bool)
        ensures
            r == (self.error == ErrorCode::Success),
    {
        self.error == ErrorCode::Success
    }
}

/// Base64 encoding/decoding options.
#[derive(Copy, Clone, Debug, PartialEq, Eq, Structural)]
pub enum Base64Options {
    /// Standard base64 with padding.
    Default,
    /// URL-safe base64 without padding.
    Url,
    /// Standard base64 without padding.
    DefaultNoPadding,
    /// URL-safe base64 with padding.
    UrlWithPadding,
}

/// Last chunk handling for base64 decoding.
#[derive(Copy, Clone, Debug, PartialEq, Eq, Structural)]
pub enum LastChunkHandling {
    /// Forgiving: decode partial final chunk.
    Loose,
    /// Error on partial/unpadded last chunk.
    Strict,
    /// Ignore partial last chunk (no error).
    StopBeforePartial,
    /// Only decode full 4-character blocks.
    OnlyFullChunks,
}

} // verus!
