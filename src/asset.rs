use vstd::prelude::*;
use vstd::utf8::{decode_utf8, encode_utf8, valid_utf8};

use crate::args::FlateArgs;
use crate::codec::{compress, decoded, encoded};
use crate::error::FlateCompressionError;
use crate::method::{CompressionMethod, CompressionMethodTy};
use crate::stream::apply_decompression;
use crate::text::{longest_valid_prefix, validate_utf8, Utf8ValidationError};
use crate::threshold::{
    accepts, compression_ratio, evaluate_threshold, is_ratio_below, ratio_below, ratio_hundredths,
    ThresholdCondition, DEFAULT_WARNING_THRESHOLD,
};

verus! {

/// Why an asset could not be embedded.
#[derive(Debug)]
pub enum EmbedError {
    /// The asset was declared textual but is not well-formed UTF-8.
    InvalidUtf8(Utf8ValidationError),
    /// The compression engine failed.
    Compression(FlateCompressionError),
}

/// An asset in the compressed form that is embedded, with its measured ratio.
#[derive(Debug)]
pub struct CompressedAsset {
    /// The compressed bytes.
    pub bytes: Vec<u8>,
    /// The compression ratio in hundredths of a percent, rounded to the nearest.
    pub ratio: u128,
    /// The ratio lies below the diagnostic threshold: the asset is flagged.
    pub low_ratio: bool,
}

/// The algorithm a request names, DEFLATE where it names none.
pub open spec fn method_of(algorithm: Option<CompressionMethod>) -> CompressionMethod {
    match algorithm {
        Some(m) => m,
        None => CompressionMethod::Deflate,
    }
}

/// The percentage below which the low-ratio diagnostic flags an asset.
pub open spec fn warning_percent(threshold: Option<ThresholdCondition>) -> u64 {
    match threshold {
        Some(c) => c.percent(),
        None => DEFAULT_WARNING_THRESHOLD,
    }
}

/// Whether a request with `threshold` compresses `source` whose compressed
/// form has `compressed_len` bytes; with no condition it always does.
pub open spec fn decision(source_len: nat, compressed_len: nat, threshold: Option<ThresholdCondition>) -> bool {
    match threshold {
        Some(c) => accepts(source_len as u64, compressed_len as u64, c),
        None => true,
    }
}

/// The outcome of embedding `source` as asked by `args`: it succeeds unless
/// the asset is declared textual and is not well-formed UTF-8, which is
/// found before anything is compressed.
pub open spec fn embedding_ok(source: Seq<u8>, args: FlateArgs, utf8: bool, r: Result<CompressedAsset, EmbedError>) -> bool {
    let m = method_of(args.algorithm);
    &&& r is Ok <==> (!utf8 || valid_utf8(source))
    &&& match r {
        Ok(a) => {
            &&& !utf8 || valid_utf8(source)
            &&& a.bytes@ == encoded(m, source)
            &&& decoded(m, a.bytes@) == Some(source)
            &&& a.ratio == ratio_hundredths(source.len() as u64, a.bytes@.len() as u64)
            &&& a.low_ratio == ratio_below(source.len() as u64, a.bytes@.len() as u64, warning_percent(args.threshold))
        },
        Err(EmbedError::InvalidUtf8(e)) => {
            &&& utf8 && !valid_utf8(source)
            &&& longest_valid_prefix(source, e.valid_up_to as int)
        },
        Err(EmbedError::Compression(e)) => (!utf8 || valid_utf8(source)) && e.is_backend_failure(m),
    }
}

/// The outcome of deciding whether to compress `source` as asked by `args`:
/// it succeeds unless the asset is declared textual and is not well-formed
/// UTF-8.
pub open spec fn decision_ok(source: Seq<u8>, args: FlateArgs, utf8: bool, r: Result<bool, EmbedError>) -> bool {
    let m = method_of(args.algorithm);
    &&& r is Ok <==> (!utf8 || valid_utf8(source))
    &&& match r {
        Ok(b) => {
            &&& !utf8 || valid_utf8(source)
            &&& b == decision(source.len(), encoded(m, source).len(), args.threshold)
        },
        Err(EmbedError::InvalidUtf8(e)) => {
            &&& utf8 && !valid_utf8(source)
            &&& longest_valid_prefix(source, e.valid_up_to as int)
        },
        Err(EmbedError::Compression(e)) => (!utf8 || valid_utf8(source)) && e.is_backend_failure(m),
    }
}

/// The algorithm a request names, DEFLATE where it names none.
fn method_or_default(algorithm: Option<CompressionMethod>) -> (r: CompressionMethod)
    ensures
        r == method_of(algorithm),
{
    match algorithm {
        Some(m) => m,
        None => CompressionMethod::Deflate,
    }
}

/// Validates a textual source where asked, then compresses it.
fn checked_compression(source: &[u8], method: CompressionMethod, utf8: bool) -> (r: Result<Vec<u8>, EmbedError>)
    ensures
        r is Ok <==> (!utf8 || valid_utf8(source@)),
        match r {
            Ok(c) => (!utf8 || valid_utf8(source@)) && c@ == encoded(method, source@)
                && decoded(method, c@) == Some(source@),
            Err(EmbedError::InvalidUtf8(e)) => {
                &&& utf8 && !valid_utf8(source@)
                &&& longest_valid_prefix(source@, e.valid_up_to as int)
            },
            Err(EmbedError::Compression(e)) => (!utf8 || valid_utf8(source@)) && e.is_backend_failure(method),
        },
{
    if utf8 {
        if let Err(e) = validate_utf8(source) {
            return Err(EmbedError::InvalidUtf8(e));
        }
    }
    match compress(method, source) {
        Ok(c) => Ok(c),
        Err(e) => Err(EmbedError::Compression(e)),
    }
}

/// Compresses `source` as asked by `args`, validating it as UTF-8 first when
/// `utf8` is set, and measures the ratio for the low-ratio diagnostic.
fn deflate_inner(source: &[u8], args: &FlateArgs, utf8: bool) -> (r: Result<CompressedAsset, EmbedError>)
    ensures
        embedding_ok(source@, *args, utf8, r),
{
    let method = method_or_default(args.algorithm);
    let bytes = match checked_compression(source, method, utf8) {
        Ok(c) => c,
        Err(e) => return Err(e),
    };
    let original = source.len() as u64;
    let size = bytes.len() as u64;
    let percent = match args.threshold {
        Some(c) => c.threshold_percent(),
        None => DEFAULT_WARNING_THRESHOLD,
    };
    let ratio = compression_ratio(original, size);
    let low_ratio = is_ratio_below(original, size, percent);
    Ok(CompressedAsset { bytes, ratio, low_ratio })
}

/// Compresses `source` and decides, by the threshold condition of `args`,
/// whether the compression is worth it; validates it as UTF-8 first when
/// `utf8` is set.
fn deflate_if_inner(source: &[u8], args: &FlateArgs, utf8: bool) -> (r: Result<bool, EmbedError>)
    ensures
        decision_ok(source@, *args, utf8, r),
{
    let method = method_or_default(args.algorithm);
    let compressed = match checked_compression(source, method, utf8) {
        Ok(c) => c,
        Err(e) => return Err(e),
    };
    match args.threshold {
        Some(c) => Ok(evaluate_threshold(source.len() as u64, compressed.len() as u64, c)),
        None => Ok(true),
    }
}

/// The compressed form of the asset `source` as asked by `args`, with its
/// ratio and whether the low-ratio diagnostic flags it.
pub fn deflate_file(source: &[u8], args: &FlateArgs) -> (r: Result<CompressedAsset, EmbedError>)
    ensures
        embedding_ok(source@, *args, false, r),
{
    deflate_inner(source, args, false)
}

/// As `deflate_file`, for an asset declared textual: it is refused unless it
/// is well-formed UTF-8.
pub fn deflate_utf8_file(source: &[u8], args: &FlateArgs) -> (r: Result<CompressedAsset, EmbedError>)
    ensures
        embedding_ok(source@, *args, true, r),
{
    deflate_inner(source, args, true)
}

/// Whether the asset `source` should be compressed under the threshold
/// condition of `args` (always, where it names none).
pub fn deflate_if(source: &[u8], args: &FlateArgs) -> (r: Result<bool, EmbedError>)
    ensures
        decision_ok(source@, *args, false, r),
{
    deflate_if_inner(source, args, false)
}

/// As `deflate_if`, for an asset declared textual: it is refused unless it is
/// well-formed UTF-8.
pub fn deflate_utf8_if(source: &[u8], args: &FlateArgs) -> (r: Result<bool, EmbedError>)
    ensures
        decision_ok(source@, *args, true, r),
{
    deflate_if_inner(source, args, true)
}

/// The method named by a decoding request, DEFLATE where it names none.
pub open spec fn method_of_ty(algo: Option<CompressionMethodTy>) -> CompressionMethod {
    match algo {
        Some(t) => t.0,
        None => CompressionMethod::Deflate,
    }
}

/// Restores embedded bytes. They must be a well-formed stream of the method:
/// embedded data is only ever what this library compressed.
pub fn decode(bytes: &[u8], algo: Option<CompressionMethodTy>) -> (r: Vec<u8>)
    requires
        decoded(method_of_ty(algo), bytes@) is Some,
    ensures
        decoded(method_of_ty(algo), bytes@) == Some(r@),
{
    let method = match algo {
        Some(t) => t.0,
        None => CompressionMethod::Deflate,
    };
    let mut ret: Vec<u8> = Vec::new();
    // This cannot fail: `bytes` is a well-formed stream of `method`.
    let _ = apply_decompression(bytes, &mut ret, method);
    assert(ret@.subrange(0, ret@.len() as int) == ret@);
    ret
}

/// Restores embedded text. The bytes must be a well-formed stream of the
/// method that holds well-formed UTF-8, as what was validated before it was
/// compressed.
pub fn decode_string(bytes: &[u8], algo: Option<CompressionMethodTy>) -> (r: String)
    requires
        decoded(method_of_ty(algo), bytes@) matches Some(text) && valid_utf8(text),
    ensures
        decoded(method_of_ty(algo), bytes@) == Some(encode_utf8(r@)),
{
    let raw = decode(bytes, algo);
    match validate_utf8(raw.as_slice()) {
        Ok(s) => {
            proof {
                vstd::utf8::decode_utf8_encode_utf8(raw@);
            }
            s
        },
        Err(_) => {
            proof {
                assert(false);
            }
            String::new()
        },
    }
}

/// Embeds the asset `source` as asked by `args` and restores it as it is
/// restored when first used.
pub fn flate_bytes(source: &[u8], args: &FlateArgs) -> (r: Result<Vec<u8>, EmbedError>)
    ensures
        r is Ok,
        match r {
            Ok(v) => v@ == source@,
            Err(EmbedError::Compression(e)) => e.is_backend_failure(method_of(args.algorithm)),
            Err(EmbedError::InvalidUtf8(_)) => false,
        },
{
    let asset = match deflate_file(source, args) {
        Ok(a) => a,
        Err(e) => return Err(e),
    };
    let method = method_or_default(args.algorithm);
    Ok(decode(asset.bytes.as_slice(), Some(CompressionMethodTy(method))))
}

/// Embeds the textual asset `source` as asked by `args` and restores it as
/// text as it is restored when first used; refused unless `source` is
/// well-formed UTF-8.
pub fn flate_str(source: &[u8], args: &FlateArgs) -> (r: Result<String, EmbedError>)
    ensures
        r is Ok <==> valid_utf8(source@),
        r matches Err(EmbedError::InvalidUtf8(_)) <==> !valid_utf8(source@),
        match r {
            Ok(s) => encode_utf8(s@) == source@ && s@ == decode_utf8(source@),
            Err(EmbedError::Compression(e)) => e.is_backend_failure(method_of(args.algorithm)),
            Err(EmbedError::InvalidUtf8(e)) => longest_valid_prefix(source@, e.valid_up_to as int),
        },
{
    let asset = match deflate_utf8_file(source, args) {
        Ok(a) => a,
        Err(e) => return Err(e),
    };
    let method = method_or_default(args.algorithm);
    let s = decode_string(asset.bytes.as_slice(), Some(CompressionMethodTy(method)));
    proof {
        vstd::utf8::encode_utf8_decode_utf8(s@);
    }
    Ok(s)
}

} // verus!
