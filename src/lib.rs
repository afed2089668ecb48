//! Embedding of static assets in compressed form: a codec layer over DEFLATE
//! and Zstandard, a policy that decides whether compressing an asset pays off,
//! and a UTF-8 guard for assets that are declared textual.

mod args;
mod asset;
mod codec;
mod error;
mod laws;
mod method;
mod sink;
mod stream;
mod text;
mod threshold;

pub use args::{
    algorithm_at, is_ident, options_from, parsed_args, threshold_at, threshold_width, ArgToken,
    ArgsError, FlateArgs,
};
pub use asset::{
    decision, decision_ok, decode, decode_string, deflate_file, deflate_if, deflate_utf8_file,
    deflate_utf8_if, embedding_ok, flate_bytes, flate_str, method_of, method_of_ty, warning_percent,
    CompressedAsset, EmbedError,
};
pub use codec::{
    compress, decoded, decompress, deflate_decoded, deflate_encoded, encoded, malformed_start,
    no_frame_start, reserved_first_block, zstd_decoded, zstd_encoded,
};
pub use error::FlateCompressionError;
pub use laws::{
    lemma_always_accepts, lemma_flipped_magic_refused, lemma_less_than_original_boundary,
    lemma_ratio_condition_inverted, lemma_reserved_block_type_refused, lemma_text_round_trip,
};
pub use method::{CompressionMethod, CompressionMethodTy};
pub use threshold::{
    accepts, compression_ratio, evaluate_threshold, is_ratio_below, ratio_at_most, ratio_below,
    ratio_hundredths, ThresholdCondition, DEFAULT_WARNING_THRESHOLD,
};
pub use text::{longest_valid_prefix, validate_utf8, verify_str, Utf8ValidationError};
pub use stream::{apply_compression, apply_decompression, FlateDecoder, FlateEncoder, CHUNK_SIZE};
