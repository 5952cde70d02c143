//! Error taxonomy of the message-passing layer.

use vstd::prelude::*;

verus! {

/// A failure reported while reading raw bytes from a stream.
///
/// The clean end of the stream is kept apart from every other kind of
/// transport failure, since callers usually treat it as the normal end of a
/// session rather than as a fault.
#[derive(Debug, Clone, Copy, PartialEq, Eq, Structural)]
pub enum ReadError {
    /// The stream ended before the requested bytes were available.
    Eof,
    /// The stream failed; the code identifies the kind of failure.
    Io(u32),
}

/// A failure reported by the framing codec.
#[derive(Debug, Clone, Copy, PartialEq, Eq, Structural)]
pub enum CodecError {
    /// The stream ended before a full frame was available.
    Eof,
    /// Stream I/O failed; the code identifies the kind of failure.
    Io(u32),
    /// The outgoing value could not be serialized.
    Encode,
    /// The payload bytes were not a valid encoding of the expected type.
    Decode,
}

impl CodecError {
    /// The codec error that surfaces a raw stream read failure.
    ///
    /// The kind of the underlying failure is preserved unchanged.
    pub open spec fn spec_from_read(e: ReadError) -> CodecError {
        match e {
            ReadError::Eof => CodecError::Eof,
            ReadError::Io(code) => CodecError::Io(code),
        }
    }

    /// Surface a raw stream read failure as a codec error, preserving its kind.
    pub fn from_read(e: ReadError) -> (r: CodecError)
        ensures
            r == CodecError::spec_from_read(e),
    {
        match e {
            ReadError::Eof => CodecError::Eof,
            ReadError::Io(code) => CodecError::Io(code),
        }
    }

    /// A short description of the error, for diagnostics.
    pub fn describe(&self) -> &'static str {
        match self {
            CodecError::Eof => "end of stream",
            CodecError::Io(_) => "stream failure",
            CodecError::Encode => "value could not be encoded",
            CodecError::Decode => "payload bytes could not be decoded",
        }
    }
}

} // verus!
