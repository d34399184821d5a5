//! Errors of the client.

use vstd::prelude::*;
use crate::datatypes::error::StatusCode;

verus! {

/// An error of the transport layer, with the class it is of.
#[derive(Clone, Debug, PartialEq, Eq)]
pub struct GrpcError {
    pub msg: String,
    pub status_code: StatusCode,
}

/// What can go wrong on the client's side.
#[derive(Clone, Debug, PartialEq, Eq)]
pub enum Error {
    IllegalFlightMessages { reason: String },
    MissingResult { name: String, expected: usize, actual: usize },
    MissingHeader,
    TonicStatus { addr: String, source: String },
    Datanode { code: u32, msg: String },
    ConvertFlightData { source: GrpcError },
    ColumnDataType { source: String },
    IllegalGrpcClientState { err_msg: String },
    MissingField { field: String },
    CreateChannel { addr: String, source: GrpcError },
}

pub type Result<T> = core::result::Result<T, Error>;

impl Error {
    /// The class of the error: an illegal state of the client is unexpected,
    /// an error of the transport layer keeps its own class, and all others
    /// are internal.
    pub fn status_code(&self) -> (code: StatusCode)
        ensures
            code == match *self {
                Error::CreateChannel { source, .. } => source.status_code,
                Error::ConvertFlightData { source } => source.status_code,
                Error::IllegalGrpcClientState { .. } => StatusCode::Unexpected,
                _ => StatusCode::Internal,
            },
    {
        match self {
            Error::IllegalFlightMessages { .. }
            | Error::MissingResult { .. }
            | Error::MissingHeader
            | Error::TonicStatus { .. }
            | Error::Datanode { .. }
            | Error::ColumnDataType { .. }
            | Error::MissingField { .. } => StatusCode::Internal,
            Error::CreateChannel { source, .. } => source.status_code,
            Error::ConvertFlightData { source } => source.status_code,
            Error::IllegalGrpcClientState { .. } => StatusCode::Unexpected,
        }
    }
}

} // verus!
