use vstd::prelude::*;

verus! {

/// The compression algorithms an asset can be embedded with.
#[derive(Debug, Clone, Copy, PartialEq, Eq, Structural)]
pub enum CompressionMethod {
    Deflate,
    Zstd,
}

impl Default for CompressionMethod {
    /// DEFLATE, used wherever no algorithm is named.
    fn default() -> (r: CompressionMethod)
        ensures
            r == CompressionMethod::Deflate,
    {
        CompressionMethod::Deflate
    }
}

/// A compression method as handed to the decoding entry points.
#[derive(Debug)]
pub struct CompressionMethodTy(pub CompressionMethod);

impl From<CompressionMethodTy> for CompressionMethod {
    fn from(t: CompressionMethodTy) -> (r: CompressionMethod)
        ensures
            r == t.0,
    {
        t.0
    }
}

impl vstd::std_specs::convert::FromSpecImpl<CompressionMethodTy> for CompressionMethod {
    open spec fn obeys_from_spec() -> bool {
        true
    }

    open spec fn from_spec(t: CompressionMethodTy) -> CompressionMethod {
        t.0
    }
}

} // verus!
