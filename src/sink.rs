use std::io::Write;

use vstd::prelude::*;

use crate::codec::{deflate_decoded, zstd_decoded};

verus! {

/// libflate's streaming DEFLATE encoder, writing into a byte vector.
#[verifier::external_body]
pub struct DeflateSink {
    inner: libflate::deflate::Encoder<Vec<u8>>,
}

/// zstd's streaming encoder at the default level, writing into a byte vector.
#[verifier::external_body]
pub struct ZstdSink {
    inner: zstd::stream::write::Encoder<'static, Vec<u8>>,
}

/// The bytes the DEFLATE encoder's vector held when the encoder was made.
pub uninterp spec fn deflate_sink_base(s: DeflateSink) -> Seq<u8>;

/// Everything written into the DEFLATE encoder so far.
pub uninterp spec fn deflate_sink_input(s: DeflateSink) -> Seq<u8>;

/// The bytes the zstd encoder's vector held when the encoder was made.
pub uninterp spec fn zstd_sink_base(s: ZstdSink) -> Seq<u8>;

/// Everything written into the zstd encoder so far.
pub uninterp spec fn zstd_sink_input(s: ZstdSink) -> Seq<u8>;

impl DeflateSink {
    /// Relies on libflate::deflate::Encoder::new, which only sets up state:
    /// nothing is written yet and the vector is kept as it is.
    #[verifier::external_body]
    pub(crate) fn new(sink: Vec<u8>) -> (r: DeflateSink)
        ensures
            deflate_sink_base(r) == sink@,
            deflate_sink_input(r) == Seq::<u8>::empty(),
    {
        DeflateSink { inner: libflate::deflate::Encoder::new(sink) }
    }

    /// Relies on `Write::write_all` of libflate::deflate::Encoder: it takes
    /// all of `buf`, and fails only where the inner writer fails, which a
    /// vector never does.
    #[verifier::external_body]
    pub(crate) fn write_all(&mut self, buf: &[u8]) -> (r: Result<(), std::io::Error>)
        ensures
            r is Ok,
            deflate_sink_base(*final(self)) == deflate_sink_base(*old(self)),
            deflate_sink_input(*final(self)) == deflate_sink_input(*old(self)) + buf@,
    {
        self.inner.write_all(buf)
    }

    /// Relies on `Write::flush` of libflate::deflate::Encoder: it emits the
    /// buffered block and takes no input, and fails only where the inner
    /// writer fails.
    #[verifier::external_body]
    pub(crate) fn flush(&mut self) -> (r: Result<(), std::io::Error>)
        ensures
            r is Ok,
            deflate_sink_base(*final(self)) == deflate_sink_base(*old(self)),
            deflate_sink_input(*final(self)) == deflate_sink_input(*old(self)),
    {
        self.inner.flush()
    }

    /// Relies on libflate::deflate::Encoder::finish: it hands back the vector
    /// with the DEFLATE stream of all input appended, failing only where the
    /// inner writer fails.
    #[verifier::external_body]
    pub(crate) fn finish(self) -> (r: Result<Vec<u8>, std::io::Error>)
        ensures
            r is Ok,
            r matches Ok(out) ==> out@.len() >= deflate_sink_base(self).len(),
            r matches Ok(out) ==> out@.subrange(0, deflate_sink_base(self).len() as int) == deflate_sink_base(self),
            r matches Ok(out) ==> deflate_decoded(out@.subrange(deflate_sink_base(self).len() as int, out@.len() as int))
                == Some(deflate_sink_input(self)),
    {
        self.inner.finish().into_result()
    }
}

impl ZstdSink {
    /// Relies on zstd::stream::write::Encoder::new at level 0, zstd's
    /// default: with no dictionary its setup does not fail, and the vector is
    /// kept as it is.
    #[verifier::external_body]
    pub(crate) fn new(sink: Vec<u8>) -> (r: Result<ZstdSink, std::io::Error>)
        ensures
            r is Ok,
            r matches Ok(s) ==> zstd_sink_base(s) == sink@,
            r matches Ok(s) ==> zstd_sink_input(s) == Seq::<u8>::empty(),
    {
        Ok(ZstdSink { inner: zstd::stream::write::Encoder::new(sink, 0)? })
    }

    /// Relies on `Write::write_all` of zstd::stream::write::Encoder: it takes
    /// all of `buf` into the frame, writing into a vector that never fails.
    #[verifier::external_body]
    pub(crate) fn write_all(&mut self, buf: &[u8]) -> (r: Result<(), std::io::Error>)
        ensures
            r is Ok,
            zstd_sink_base(*final(self)) == zstd_sink_base(*old(self)),
            zstd_sink_input(*final(self)) == zstd_sink_input(*old(self)) + buf@,
    {
        self.inner.write_all(buf)
    }

    /// Relies on `Write::flush` of zstd::stream::write::Encoder: it emits
    /// what the frame buffers and takes no input.
    #[verifier::external_body]
    pub(crate) fn flush(&mut self) -> (r: Result<(), std::io::Error>)
        ensures
            r is Ok,
            zstd_sink_base(*final(self)) == zstd_sink_base(*old(self)),
            zstd_sink_input(*final(self)) == zstd_sink_input(*old(self)),
    {
        self.inner.flush()
    }

    /// Relies on zstd::stream::write::Encoder::finish: it ends the frame and
    /// hands back the vector with the frame of all input appended.
    #[verifier::external_body]
    pub(crate) fn finish(self) -> (r: Result<Vec<u8>, std::io::Error>)
        ensures
            r is Ok,
            r matches Ok(out) ==> out@.len() >= zstd_sink_base(self).len(),
            r matches Ok(out) ==> out@.subrange(0, zstd_sink_base(self).len() as int) == zstd_sink_base(self),
            r matches Ok(out) ==> zstd_decoded(out@.subrange(zstd_sink_base(self).len() as int, out@.len() as int))
                == Some(zstd_sink_input(self)),
    {
        self.inner.finish()
    }
}

} // verus!
