use std::io::{Read, Write};

use vstd::prelude::*;

use crate::error::FlateCompressionError;
use crate::method::CompressionMethod;

verus! {

/// The stream libflate's DEFLATE encoder, with its default options, makes of
/// `data`.
pub uninterp spec fn deflate_encoded(data: Seq<u8>) -> Seq<u8>;

/// The frame the zstd crate's encoder, at its default level, makes of `data`.
pub uninterp spec fn zstd_encoded(data: Seq<u8>) -> Seq<u8>;

/// What libflate's DEFLATE decoder makes of a stream: the decoded bytes, or
/// `None` where it reports the stream malformed.
pub uninterp spec fn deflate_decoded(stream: Seq<u8>) -> Option<Seq<u8>>;

/// What the zstd crate's decoder makes of a sequence of frames: the decoded
/// bytes, or `None` where it reports them malformed.
pub uninterp spec fn zstd_decoded(frames: Seq<u8>) -> Option<Seq<u8>>;

/// The compressed form that the encoder for `method` makes of `data`.
pub open spec fn encoded(method: CompressionMethod, data: Seq<u8>) -> Seq<u8> {
    match method {
        CompressionMethod::Deflate => deflate_encoded(data),
        CompressionMethod::Zstd => zstd_encoded(data),
    }
}

/// What the decoder for `method` makes of `compressed`.
pub open spec fn decoded(method: CompressionMethod, compressed: Seq<u8>) -> Option<Seq<u8>> {
    match method {
        CompressionMethod::Deflate => deflate_decoded(compressed),
        CompressionMethod::Zstd => zstd_decoded(compressed),
    }
}

/// A DEFLATE stream whose first block header names block type 3, which the
/// format reserves: its first byte has bits 1 and 2 set.
pub open spec fn reserved_first_block(stream: Seq<u8>) -> bool {
    stream.len() > 0 && stream[0] & 0x06u8 == 0x06u8
}

/// A buffer whose first byte starts no zstd frame: not the first byte of the
/// standard frame magic (0x28), of a skippable frame (0x50 to 0x5f), or of a
/// legacy frame (0x1e, 0x22 to 0x27).
pub open spec fn no_frame_start(frames: Seq<u8>) -> bool {
    &&& frames.len() > 0
    &&& frames[0] != 0x1eu8
    &&& !(0x22u8 <= frames[0] <= 0x28u8)
    &&& !(0x50u8 <= frames[0] <= 0x5fu8)
}

/// The first bytes of `compressed` already show that it is no stream of
/// `method`.
pub open spec fn malformed_start(method: CompressionMethod, compressed: Seq<u8>) -> bool {
    match method {
        CompressionMethod::Deflate => reserved_first_block(compressed),
        CompressionMethod::Zstd => no_frame_start(compressed),
    }
}

/// Relies on libflate::deflate::Encoder (`new`, `write_all`, `finish`) with
/// default options: writing into a vector, which never fails, it succeeds;
/// its stream depends on the input alone, and libflate's decoder turns it
/// back into the input.
#[verifier::external_body]
fn deflate_encode(data: &[u8]) -> (r: Result<Vec<u8>, std::io::Error>)
    ensures
        r is Ok,
        r matches Ok(c) ==> c@ == deflate_encoded(data@) && deflate_decoded(c@) == Some(data@),
{
    let mut encoder = libflate::deflate::Encoder::new(Vec::new());
    encoder.write_all(data)?;
    encoder.finish().into_result()
}

/// Relies on libflate::deflate::Decoder read to its end: it succeeds exactly
/// on well-formed streams, with their decoded bytes; its first read takes the
/// first block header from the low bits of the first byte and refuses the
/// reserved block type.
#[verifier::external_body]
fn deflate_decode(stream: &[u8]) -> (r: Result<Vec<u8>, std::io::Error>)
    ensures
        reserved_first_block(stream@) ==> r is Err,
        r is Ok <==> deflate_decoded(stream@) is Some,
        r matches Ok(d) ==> deflate_decoded(stream@) == Some(d@),
{
    let mut decoded = Vec::new();
    libflate::deflate::Decoder::new(stream).read_to_end(&mut decoded)?;
    Ok(decoded)
}

/// Relies on zstd::encode_all at level 0, zstd's default: with no
/// dictionary and a vector to write into it succeeds; its frame depends on
/// the input alone, and zstd's decoder turns it back into the input.
#[verifier::external_body]
fn zstd_encode(data: &[u8]) -> (r: Result<Vec<u8>, std::io::Error>)
    ensures
        r is Ok,
        r matches Ok(c) ==> c@ == zstd_encoded(data@) && zstd_decoded(c@) == Some(data@),
{
    zstd::encode_all(data, 0)
}

/// Relies on zstd::decode_all: it succeeds exactly on well-formed frames,
/// with their decoded bytes; a buffer whose first byte starts no frame either
/// fails the frame header check or ends as an incomplete frame.
#[verifier::external_body]
fn zstd_decode(frames: &[u8]) -> (r: Result<Vec<u8>, std::io::Error>)
    ensures
        no_frame_start(frames@) ==> r is Err,
        r is Ok <==> zstd_decoded(frames@) is Some,
        r matches Ok(d) ==> zstd_decoded(frames@) == Some(d@),
{
    zstd::decode_all(frames)
}

/// Compresses `data` in one piece with the backend of `method`.
pub fn compress(method: CompressionMethod, data: &[u8]) -> (r: Result<Vec<u8>, FlateCompressionError>)
    ensures
        r is Ok,
        r matches Ok(c) ==> c@ == encoded(method, data@) && decoded(method, c@) == Some(data@),
{
    match method {
        CompressionMethod::Deflate => match deflate_encode(data) {
            Ok(c) => Ok(c),
            Err(e) => Err(FlateCompressionError::DeflateError(e)),
        },
        CompressionMethod::Zstd => match zstd_encode(data) {
            Ok(c) => Ok(c),
            Err(e) => Err(FlateCompressionError::ZstdError(e)),
        },
    }
}

/// Decompresses `compressed` in one piece with the backend of `method`.
pub fn decompress(method: CompressionMethod, compressed: &[u8]) -> (r: Result<Vec<u8>, FlateCompressionError>)
    ensures
        r is Ok <==> decoded(method, compressed@) is Some,
        malformed_start(method, compressed@) ==> r is Err,
        match r {
            Ok(d) => decoded(method, compressed@) == Some(d@),
            Err(e) => e.is_backend_failure(method),
        },
{
    match method {
        CompressionMethod::Deflate => match deflate_decode(compressed) {
            Ok(d) => Ok(d),
            Err(e) => Err(FlateCompressionError::DeflateError(e)),
        },
        CompressionMethod::Zstd => match zstd_decode(compressed) {
            Ok(d) => Ok(d),
            Err(e) => Err(FlateCompressionError::ZstdError(e)),
        },
    }
}

} // verus!
