//! Errors of the column type system.

use vstd::prelude::*;

verus! {

/// The class of an error, as clients are told it.
#[derive(Clone, Copy, Debug, PartialEq, Eq, Structural)]
pub enum StatusCode {
    Success,
    Unknown,
    Unsupported,
    Unexpected,
    Internal,
    InvalidArguments,
}

impl StatusCode {
    /// Whether the numeric code `code` reports success.
    pub fn is_success(code: u32) -> (b: bool)
        ensures
            b == (code == 0),
    {
        code == 0
    }
}

/// What can go wrong while values, vectors and schemas are built or converted.
#[derive(Debug, Clone, PartialEq, Eq)]
pub enum Error {
    Serialize { source: String },
    Deserialize { source: String, json: String },
    Conversion { from: String },
    BadArrayAccess { index: usize, size: usize },
    UnknownVector { msg: String },
    UnsupportedArrowType { arrow_type: String },
    TimestampNotFound { name: String },
    ParseSchemaVersion { value: String, source: String },
    InvalidTimestampIndex { index: usize },
    DuplicateTimestampIndex { exists: usize, new: usize },
    CastType { msg: String },
    ArrowCompute { source: String },
    UnsupportedDefaultExpr { expr: String },
    NullDefault,
    DefaultValueType { reason: String },
    DuplicateMeta { key: String },
    ToScalarValue { reason: String },
}

impl Error {
    /// Errors of encoding and decoding are internal: none is shown to users
    /// under another class.
    pub fn status_code(&self) -> (code: StatusCode)
        ensures
            code == StatusCode::Internal,
    {
        StatusCode::Internal
    }
}

pub type Result<T> = core::result::Result<T, Error>;

} // verus!
