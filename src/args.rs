use vstd::prelude::*;

use crate::method::CompressionMethod;
use crate::threshold::ThresholdCondition;

verus! {

/// One token of an embedding request such as
/// `"assets/data.bin" zstd compression_ratio_more_than 10 %`.
#[derive(Debug, PartialEq, Eq)]
pub enum ArgToken {
    /// A string literal, by its value.
    Str(String),
    /// An identifier or keyword.
    Ident(String),
    /// An unsigned integer literal, by its value.
    Int(u64),
    /// A punctuation character.
    Punct(char),
}

/// Why a token sequence is not an embedding request.
#[derive(Debug, Clone, Copy, PartialEq, Eq, Structural)]
pub enum ArgsError {
    /// The request does not start with a string literal naming the file.
    ExpectedPath,
    /// The token at this index starts no algorithm or threshold option.
    Unexpected(usize),
}

/// An embedding request: the file, and optionally the algorithm and the
/// threshold condition.
#[derive(Debug, PartialEq, Eq)]
pub struct FlateArgs {
    pub path: String,
    pub algorithm: Option<CompressionMethod>,
    pub threshold: Option<ThresholdCondition>,
}

/// `t` is the identifier `word`.
pub open spec fn is_ident(t: ArgToken, word: Seq<char>) -> bool {
    t matches ArgToken::Ident(s) && s@ == word
}

/// The algorithm keyword at index `i`, if there is one.
pub open spec fn algorithm_at(toks: Seq<ArgToken>, i: int) -> Option<CompressionMethod> {
    if !(0 <= i < toks.len()) {
        None
    } else if is_ident(toks[i], "deflate"@) {
        Some(CompressionMethod::Deflate)
    } else if is_ident(toks[i], "zstd"@) {
        Some(CompressionMethod::Zstd)
    } else {
        None
    }
}

/// The threshold condition that starts at index `i`, if there is one:
/// `always`, `less_than_original`, or `compression_ratio_more_than N %`.
pub open spec fn threshold_at(toks: Seq<ArgToken>, i: int) -> Option<ThresholdCondition> {
    if !(0 <= i < toks.len()) {
        None
    } else if is_ident(toks[i], "always"@) {
        Some(ThresholdCondition::Always)
    } else if is_ident(toks[i], "less_than_original"@) {
        Some(ThresholdCondition::LessThanOriginal)
    } else if is_ident(toks[i], "compression_ratio_more_than"@) && i + 2 < toks.len()
        && toks[i + 1] is Int && toks[i + 2] == ArgToken::Punct('%') {
        Some(ThresholdCondition::CompressionRatioMoreThan(toks[i + 1]->Int_0))
    } else {
        None
    }
}

/// How many tokens the condition `c` is written with.
pub open spec fn threshold_width(c: ThresholdCondition) -> int {
    match c {
        ThresholdCondition::CompressionRatioMoreThan(_) => 3,
        _ => 1,
    }
}

/// The options from index `i` on, given those read before: a later option
/// replaces an earlier one of its kind; the first token that starts no option
/// is an error.
pub open spec fn options_from(
    toks: Seq<ArgToken>,
    i: int,
    algorithm: Option<CompressionMethod>,
    threshold: Option<ThresholdCondition>,
) -> Result<(Option<CompressionMethod>, Option<ThresholdCondition>), usize>
    decreases toks.len() - i,
{
    if i < 0 || i >= toks.len() {
        Ok((algorithm, threshold))
    } else if let Some(m) = algorithm_at(toks, i) {
        options_from(toks, i + 1, Some(m), threshold)
    } else if let Some(c) = threshold_at(toks, i) {
        options_from(toks, i + threshold_width(c), algorithm, Some(c))
    } else {
        Err(i as usize)
    }
}

/// The request that `toks` spell: the path, the algorithm and the threshold.
pub open spec fn parsed_args(toks: Seq<ArgToken>) -> Result<(Seq<char>, Option<CompressionMethod>, Option<ThresholdCondition>), ArgsError> {
    if toks.len() == 0 || !(toks[0] is Str) {
        Err(ArgsError::ExpectedPath)
    } else {
        match options_from(toks, 1, None, None) {
            Ok((a, t)) => Ok((toks[0]->Str_0@, a, t)),
            Err(i) => Err(ArgsError::Unexpected(i)),
        }
    }
}

/// Whether `token` is the identifier `word`.
fn ident_is(token: &ArgToken, word: &str) -> (r: bool)
    ensures
        r == is_ident(*token, word@),
{
    match token {
        ArgToken::Ident(s) => *s == word.to_owned(),
        _ => false,
    }
}

impl ThresholdCondition {
    /// Reads the threshold condition that starts at `tokens[i]`, with the
    /// number of tokens it spans.
    pub fn parse(tokens: &[ArgToken], i: usize) -> (r: Option<(ThresholdCondition, usize)>)
        ensures
            match r {
                Some((c, w)) => threshold_at(tokens@, i as int) == Some(c) && w == threshold_width(c),
                None => threshold_at(tokens@, i as int) is None,
            },
    {
        if i >= tokens.len() {
            None
        } else if ident_is(&tokens[i], "always") {
            Some((ThresholdCondition::Always, 1))
        } else if ident_is(&tokens[i], "less_than_original") {
            Some((ThresholdCondition::LessThanOriginal, 1))
        } else if ident_is(&tokens[i], "compression_ratio_more_than") && tokens.len() - i > 2 {
            match (&tokens[i + 1], &tokens[i + 2]) {
                (ArgToken::Int(t), ArgToken::Punct('%')) => Some((ThresholdCondition::CompressionRatioMoreThan(*t), 3)),
                _ => None,
            }
        } else {
            None
        }
    }
}

/// Reads the algorithm keyword at `tokens[i]`.
fn parse_algorithm(tokens: &[ArgToken], i: usize) -> (r: Option<CompressionMethod>)
    ensures
        r == algorithm_at(tokens@, i as int),
{
    if i >= tokens.len() {
        None
    } else if ident_is(&tokens[i], "deflate") {
        Some(CompressionMethod::Deflate)
    } else if ident_is(&tokens[i], "zstd") {
        Some(CompressionMethod::Zstd)
    } else {
        None
    }
}

impl FlateArgs {
    /// Reads an embedding request: a string literal naming the file, then any
    /// number of algorithm keywords (`deflate`, `zstd`) and threshold
    /// conditions, where a later one replaces an earlier one of its kind.
    pub fn parse(tokens: &[ArgToken]) -> (r: Result<FlateArgs, ArgsError>)
        ensures
            match r {
                Ok(a) => parsed_args(tokens@) == Ok::<_, ArgsError>((a.path@, a.algorithm, a.threshold)),
                Err(e) => parsed_args(tokens@) == Err::<(Seq<char>, Option<CompressionMethod>, Option<ThresholdCondition>), _>(e),
            },
    {
        if tokens.len() == 0 {
            return Err(ArgsError::ExpectedPath);
        }
        let path = match &tokens[0] {
            ArgToken::Str(p) => p.clone(),
            _ => return Err(ArgsError::ExpectedPath),
        };
        let mut algorithm: Option<CompressionMethod> = None;
        let mut threshold: Option<ThresholdCondition> = None;
        let mut i: usize = 1;
        while i < tokens.len()
            invariant
                1 <= i <= tokens@.len(),
                tokens@[0] is Str,
                path@ == tokens@[0]->Str_0@,
                options_from(tokens@, 1, None, None) == options_from(tokens@, i as int, algorithm, threshold),
            decreases tokens@.len() - i,
        {
            if let Some(m) = parse_algorithm(tokens, i) {
                algorithm = Some(m);
                i += 1;
            } else if let Some((c, w)) = ThresholdCondition::parse(tokens, i) {
                threshold = Some(c);
                i += w;
            } else {
                return Err(ArgsError::Unexpected(i));
            }
        }
        Ok(FlateArgs { path, algorithm, threshold })
    }
}

} // verus!
