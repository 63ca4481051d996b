//! Error module for replay handling

use crate::stream::StreamError;
use vstd::prelude::*;
use vstd::string::StringExecFns;

verus! {

/// Errors that can occur during replay reading or writing.
#[derive(Debug)]
pub enum ReplayError {
    /// Failed to read replay from source.
    ReadError(String),
    /// Failed to write replay to destination.
    WriteError(String),
    /// Generic IO error.
    IOError(StreamError),
}

/// What a failure of the byte stream is called in a message.
pub open spec fn stream_error_text(error: StreamError) -> Seq<char> {
    match error {
        StreamError::UnexpectedEof => "unexpected end of file"@,
        StreamError::InvalidSeek => "invalid seek"@,
        StreamError::Other => "other error"@,
    }
}

impl ReplayError {
    /// The message of the error: which stage failed, and why.
    pub open spec fn spec_message(&self) -> Seq<char> {
        match *self {
            ReplayError::ReadError(detail) => "Failed to read replay: "@ + detail@,
            ReplayError::WriteError(detail) => "Failed to write replay: "@ + detail@,
            ReplayError::IOError(error) => "IO error: "@ + stream_error_text(error),
        }
    }

    /// The message of the error.
    pub fn message(&self) -> (text: String)
        ensures
            text@ == self.spec_message(),
    {
        match self {
            ReplayError::ReadError(detail) => String::from_str("Failed to read replay: ").concat(
                detail.as_str(),
            ),
            ReplayError::WriteError(detail) => String::from_str(
                "Failed to write replay: ",
            ).concat(detail.as_str()),
            ReplayError::IOError(StreamError::UnexpectedEof) => String::from_str(
                "IO error: ",
            ).concat("unexpected end of file"),
            ReplayError::IOError(StreamError::InvalidSeek) => String::from_str(
                "IO error: ",
            ).concat("invalid seek"),
            ReplayError::IOError(StreamError::Other) => String::from_str("IO error: ").concat(
                "other error",
            ),
        }
    }
}

} // verus!
