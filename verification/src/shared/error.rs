//! What can go wrong while a replay is loaded or stored.

use crate::stream::StreamError;
use vstd::prelude::*;

verus! {

#[derive(Clone, Copy, Debug, PartialEq, Eq, Structural)]
pub enum Error {
    /// The bytes do not describe a replay.
    LoadError,
    /// The layout or the direction is one that has no codec yet.
    Unsupported,
    /// The byte stream failed.
    IOError(StreamError),
}

impl Error {
    /// The message that goes with the error.
    pub fn message(&self) -> (text: &'static str)
        ensures
            text@ == match *self {
                Error::LoadError => "Failed to load replay"@,
                Error::Unsupported => "Not yet supported"@,
                Error::IOError(StreamError::UnexpectedEof) => "Failed to perform IO: unexpected end of file"@,
                Error::IOError(StreamError::InvalidSeek) => "Failed to perform IO: invalid seek"@,
                Error::IOError(StreamError::Other) => "Failed to perform IO: other error"@,
            },
    {
        match self {
            Error::LoadError => "Failed to load replay",
            Error::Unsupported => "Not yet supported",
            Error::IOError(StreamError::UnexpectedEof) => "Failed to perform IO: unexpected end of file",
            Error::IOError(StreamError::InvalidSeek) => "Failed to perform IO: invalid seek",
            Error::IOError(StreamError::Other) => "Failed to perform IO: other error",
        }
    }
}

} // verus!
