use vstd::prelude::*;
use vstd::utf8::{decode_utf8, encode_utf8, valid_utf8};

verus! {

/// `n` is the length of the longest well-formed prefix of `bytes`, which
/// are not well-formed as a whole: the first invalid sequence starts at `n`.
pub open spec fn longest_valid_prefix(bytes: Seq<u8>, n: int) -> bool {
    &&& 0 <= n < bytes.len()
    &&& valid_utf8(bytes.subrange(0, n))
    &&& forall|k: int| n < k <= bytes.len() ==> !valid_utf8(#[trigger] bytes.subrange(0, k))
}

/// Relies on std::str::from_utf8: it accepts exactly the well-formed UTF-8
/// sequences, as the same bytes, and otherwise reports through
/// `Utf8Error::valid_up_to` the length of the longest well-formed prefix.
#[verifier::external_body]
fn str_from_utf8(bytes: &[u8]) -> (r: Result<&str, usize>)
    ensures
        r is Ok <==> valid_utf8(bytes@),
        match r {
            Ok(s) => encode_utf8(s@) == bytes@,
            Err(n) => longest_valid_prefix(bytes@, n as int),
        },
{
    match std::str::from_utf8(bytes) {
        Ok(s) => Ok(s),
        Err(e) => Err(e.valid_up_to()),
    }
}

/// Bytes declared textual that are not well-formed UTF-8.
#[derive(Debug, Clone, Copy, PartialEq, Eq, Structural)]
pub struct Utf8ValidationError {
    /// The length of the longest well-formed prefix: the offset of the first
    /// invalid sequence.
    pub valid_up_to: usize,
}

/// Checks that `bytes` are well-formed UTF-8 and returns the text they encode.
pub fn validate_utf8(bytes: &[u8]) -> (r: Result<String, Utf8ValidationError>)
    ensures
        r is Ok <==> valid_utf8(bytes@),
        match r {
            Ok(s) => s@ == decode_utf8(bytes@),
            Err(e) => longest_valid_prefix(bytes@, e.valid_up_to as int),
        },
{
    match str_from_utf8(bytes) {
        Ok(s) => {
            proof {
                vstd::utf8::encode_utf8_decode_utf8(s@);
            }
            Ok(s.to_owned())
        },
        Err(n) => Err(Utf8ValidationError { valid_up_to: n }),
    }
}

/// Whether `contents` are the UTF-8 encoding of exactly the text `data`.
pub fn verify_str(contents: &[u8], data: &str) -> (r: bool)
    ensures
        r == (contents@ == encode_utf8(data@)),
{
    match str_from_utf8(contents) {
        Ok(s) => {
            let a = s.as_bytes();
            let b = data.as_bytes();
            bytes_equal(a, b)
        },
        Err(_) => {
            proof {
                vstd::utf8::encode_utf8_valid_utf8(data@);
            }
            false
        },
    }
}

/// Whether two byte slices hold the same bytes.
pub(crate) fn bytes_equal(a: &[u8], b: &[u8]) -> (r: bool)
    ensures
        r == (a@ == b@),
{
    if a.len() != b.len() {
        return false;
    }
    let mut i: usize = 0;
    while i < a.len()
        invariant
            a@.len() == b@.len(),
            i <= a@.len(),
            a@.subrange(0, i as int) == b@.subrange(0, i as int),
        decreases a@.len() - i,
    {
        if a[i] != b[i] {
            return false;
        }
        assert(a@.subrange(0, i + 1) == a@.subrange(0, i as int).push(a@[i as int]));
        assert(b@.subrange(0, i + 1) == b@.subrange(0, i as int).push(b@[i as int]));
        i += 1;
    }
    assert(a@ == a@.subrange(0, a@.len() as int));
    assert(b@ == b@.subrange(0, b@.len() as int));
    true
}

} // verus!
