use vstd::prelude::*;
use vstd::utf8::{decode_utf8, encode_utf8, valid_utf8};

use crate::codec::{decoded, malformed_start};
use crate::method::CompressionMethod;
use crate::threshold::{accepts, ThresholdCondition};

verus! {

/// Text survives compression: where a compressed stream restores the UTF-8
/// bytes of the text `s`, those bytes are well-formed, they decode to `s`,
/// and `s` is the only text whose bytes they are. So `decode_string` may be
/// called on the stream, and it returns `s`.
pub proof fn lemma_text_round_trip(method: CompressionMethod, s: Seq<char>, compressed: Seq<u8>)
    requires
        decoded(method, compressed) == Some(encode_utf8(s)),
    ensures
        decoded(method, compressed) matches Some(text) && valid_utf8(text) && decode_utf8(text) == s,
        forall|t: Seq<char>| decoded(method, compressed) == Some(#[trigger] encode_utf8(t)) ==> t == s,
{
    vstd::utf8::encode_utf8_valid_utf8(s);
    vstd::utf8::encode_utf8_decode_utf8(s);
    assert forall|t: Seq<char>| decoded(method, compressed) == Some(#[trigger] encode_utf8(t)) implies t == s by {
        vstd::utf8::encode_utf8_decode_utf8(t);
    }
}

/// Corruption of a DEFLATE stream is caught: setting the two block-type bits
/// of its first byte, a change to that one byte, makes the first block header
/// name the reserved block type, which decoding refuses.
pub proof fn lemma_reserved_block_type_refused(stream: Seq<u8>)
    requires
        stream.len() > 0,
    ensures
        malformed_start(CompressionMethod::Deflate, stream.update(0, stream[0] | 0x06u8)),
{
    let b = stream[0];
    assert((b | 0x06u8) & 0x06u8 == 0x06u8) by (bit_vector);
}

/// Corruption of a zstd frame is caught: flipping every bit of the first
/// byte of a standard frame leaves a buffer that starts no frame, which
/// decoding refuses.
pub proof fn lemma_flipped_magic_refused(frames: Seq<u8>)
    requires
        frames.len() > 0,
        frames[0] == 0x28u8,
    ensures
        malformed_start(CompressionMethod::Zstd, frames.update(0, frames[0] ^ 0xffu8)),
{
    let b = frames[0];
    assert(b == 0x28u8 ==> b ^ 0xffu8 == 0xd7u8) by (bit_vector);
}

/// `LessThanOriginal` accepts a compressed form exactly as large as the
/// original and refuses one a byte larger.
pub proof fn lemma_less_than_original_boundary(original: u64)
    requires
        original < u64::MAX,
    ensures
        accepts(original, original, ThresholdCondition::LessThanOriginal),
        !accepts(original, (original + 1) as u64, ThresholdCondition::LessThanOriginal),
{
}

/// `Always` accepts every pair of sizes, a compressed form larger than the
/// original included.
pub proof fn lemma_always_accepts(original: u64, compressed: u64)
    ensures
        accepts(original, compressed, ThresholdCondition::Always),
{
}

/// `CompressionRatioMoreThan(t)` refuses exactly the non-empty originals
/// whose ratio exceeds `t` percent: a high ratio means compression barely
/// helped.
pub proof fn lemma_ratio_condition_inverted(original: u64, compressed: u64, t: u64)
    ensures
        !accepts(original, compressed, ThresholdCondition::CompressionRatioMoreThan(t))
            <==> (original > 0 && compressed * 100 > t * original),
{
}

} // verus!
