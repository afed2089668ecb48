use vstd::prelude::*;

use crate::method::CompressionMethod;

verus! {

#[verifier::external_type_specification]
#[verifier::external_body]
pub struct ExIoError(std::io::Error);

/// A failure of the compression engine, naming the backend where one failed.
#[derive(Debug)]
pub enum FlateCompressionError {
    /// The DEFLATE backend rejected the data or could not finish its stream.
    DeflateError(std::io::Error),
    /// The Zstandard backend rejected the data or could not finish its frame.
    ZstdError(std::io::Error),
    /// A source or sink outside the codecs failed.
    IoError(std::io::Error),
}

impl FlateCompressionError {
    /// The error is a failure of the backend that implements `method`.
    pub open spec fn is_backend_failure(&self, method: CompressionMethod) -> bool {
        match method {
            CompressionMethod::Deflate => self is DeflateError,
            CompressionMethod::Zstd => self is ZstdError,
        }
    }
}

impl From<std::io::Error> for FlateCompressionError {
    fn from(err: std::io::Error) -> (r: FlateCompressionError)
        ensures
            r == FlateCompressionError::IoError(err),
    {
        FlateCompressionError::IoError(err)
    }
}

impl vstd::std_specs::convert::FromSpecImpl<std::io::Error> for FlateCompressionError {
    open spec fn obeys_from_spec() -> bool {
        true
    }

    open spec fn from_spec(err: std::io::Error) -> FlateCompressionError {
        FlateCompressionError::IoError(err)
    }
}

} // verus!
