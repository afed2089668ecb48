use vstd::prelude::*;

verus! {

/// The rule that decides whether compressing an asset is worth it.
///
/// The ratio is the compressed size as a percentage of the original size, so
/// a low ratio means good compression. `CompressionRatioMoreThan(t)` rejects
/// compression when the ratio exceeds `t` percent and accepts it otherwise:
/// the name says when compression is refused, not when it is kept.
///
/// An empty original has a ratio of 0%.
#[derive(Debug, Clone, Copy, PartialEq, Eq, Structural)]
pub enum ThresholdCondition {
    /// Compress regardless of the ratio.
    Always,
    /// Compress only if the compressed size is at most the original size.
    LessThanOriginal,
    /// Compress only if the ratio is at most the given percentage.
    CompressionRatioMoreThan(u64),
}

/// The threshold used for the low-ratio diagnostic when no condition is named.
pub const DEFAULT_WARNING_THRESHOLD: u64 = 10;

/// The ratio `compressed / original` is at most `percent`% (an empty original
/// counts as 0%).
pub open spec fn ratio_at_most(original: u64, compressed: u64, percent: u64) -> bool {
    original == 0 || compressed * 100 <= percent * original
}

/// The ratio `compressed / original` is below `percent`% (an empty original
/// counts as 0%).
pub open spec fn ratio_below(original: u64, compressed: u64, percent: u64) -> bool {
    if original == 0 {
        0 < percent
    } else {
        compressed * 100 < percent * original
    }
}

/// Whether `condition` accepts compressing `original` bytes into `compressed` bytes.
pub open spec fn accepts(original: u64, compressed: u64, condition: ThresholdCondition) -> bool {
    match condition {
        ThresholdCondition::Always => true,
        ThresholdCondition::LessThanOriginal => compressed <= original,
        ThresholdCondition::CompressionRatioMoreThan(t) => ratio_at_most(original, compressed, t),
    }
}

/// The compression ratio in hundredths of a percent, rounded to the nearest
/// with halves up (0 for an empty original).
pub open spec fn ratio_hundredths(original: u64, compressed: u64) -> int {
    if original == 0 {
        0
    } else {
        (compressed * 20000 + original) / (2 * original)
    }
}

impl ThresholdCondition {
    /// The percentage that the low-ratio diagnostic compares against.
    pub open spec fn percent(self) -> u64 {
        match self {
            ThresholdCondition::Always => 0,
            ThresholdCondition::LessThanOriginal => 100,
            ThresholdCondition::CompressionRatioMoreThan(t) => t,
        }
    }

    /// The percentage that the low-ratio diagnostic compares against:
    /// 0 for `Always`, 100 for `LessThanOriginal`, and the given threshold
    /// otherwise.
    pub fn threshold_percent(self) -> (r: u64)
        ensures
            r == self.percent(),
    {
        match self {
            ThresholdCondition::Always => 0,
            ThresholdCondition::LessThanOriginal => 100,
            ThresholdCondition::CompressionRatioMoreThan(t) => t,
        }
    }
}

/// Compares `compressed * 100` with `percent * original` without overflow:
/// -1, 0 or 1 as the first is smaller, equal or larger.
fn compare_ratio(original: u64, compressed: u64, percent: u64) -> (r: i8)
    ensures
        r == -1 <==> compressed * 100 < percent * original,
        r == 0 <==> compressed * 100 == percent * original,
        r == 1 <==> compressed * 100 > percent * original,
{
    let lhs: u128 = compressed as u128 * 100;
    assert((percent as u128) * (original as u128) <= u64::MAX as u128 * u64::MAX as u128) by (nonlinear_arith)
        requires
            percent <= u64::MAX,
            original <= u64::MAX,
    ;
    let rhs: u128 = percent as u128 * original as u128;
    if lhs < rhs {
        -1
    } else if lhs == rhs {
        0
    } else {
        1
    }
}

/// Decides whether compressing an asset of `original_size` bytes into
/// `compressed_size` bytes is worthwhile under `condition`.
pub fn evaluate_threshold(original_size: u64, compressed_size: u64, condition: ThresholdCondition) -> (r: bool)
    ensures
        r == accepts(original_size, compressed_size, condition),
{
    match condition {
        ThresholdCondition::Always => true,
        ThresholdCondition::LessThanOriginal => compressed_size <= original_size,
        ThresholdCondition::CompressionRatioMoreThan(t) => {
            original_size == 0 || compare_ratio(original_size, compressed_size, t) <= 0
        },
    }
}

/// Whether the ratio falls below `percent`%, which flags the asset in the
/// low-ratio diagnostic.
pub fn is_ratio_below(original_size: u64, compressed_size: u64, percent: u64) -> (r: bool)
    ensures
        r == ratio_below(original_size, compressed_size, percent),
{
    if original_size == 0 {
        0 < percent
    } else {
        compare_ratio(original_size, compressed_size, percent) < 0
    }
}

/// The compression ratio in hundredths of a percent, rounded to the nearest
/// with halves up; an empty original has ratio 0.
pub fn compression_ratio(original_size: u64, compressed_size: u64) -> (r: u128)
    ensures
        r == ratio_hundredths(original_size, compressed_size),
{
    if original_size == 0 {
        0
    } else {
        let scaled: u128 = compressed_size as u128 * 20000 + original_size as u128;
        scaled / (2 * original_size as u128)
    }
}

} // verus!
