use vstd::prelude::*;

use crate::codec::{compress, decoded, decompress, encoded, malformed_start};
use crate::error::FlateCompressionError;
use crate::method::CompressionMethod;
use crate::sink::{
    deflate_sink_base, deflate_sink_input, zstd_sink_base, zstd_sink_input, DeflateSink, ZstdSink,
};

verus! {

/// The size of the pieces in which data is moved between streams.
pub const CHUNK_SIZE: usize = 8192;

/// A write-only sink bound to one compression method and one output vector.
///
/// Data streams into the backend's encoder as it is written; `finish_encode`
/// ends the stream and hands the vector back.
pub enum FlateEncoder {
    Deflate(DeflateSink),
    Zstd(ZstdSink),
}

impl FlateEncoder {
    /// The method the encoder compresses with.
    pub open spec fn method(&self) -> CompressionMethod {
        match self {
            FlateEncoder::Deflate(_) => CompressionMethod::Deflate,
            FlateEncoder::Zstd(_) => CompressionMethod::Zstd,
        }
    }

    /// The vector as it was handed to the encoder.
    pub open spec fn sink(&self) -> Seq<u8> {
        match self {
            FlateEncoder::Deflate(s) => deflate_sink_base(*s),
            FlateEncoder::Zstd(s) => zstd_sink_base(*s),
        }
    }

    /// Everything written to the encoder so far.
    pub open spec fn written(&self) -> Seq<u8> {
        match self {
            FlateEncoder::Deflate(s) => deflate_sink_input(*s),
            FlateEncoder::Zstd(s) => zstd_sink_input(*s),
        }
    }

    /// Binds a new encoder for `method` to `sink`.
    pub fn new(method: CompressionMethod, sink: Vec<u8>) -> (r: Result<FlateEncoder, FlateCompressionError>)
        ensures
            r matches Ok(e) && e.method() == method && e.sink() == sink@ && e.written() == Seq::<u8>::empty(),
    {
        match method {
            CompressionMethod::Deflate => Ok(FlateEncoder::Deflate(DeflateSink::new(sink))),
            CompressionMethod::Zstd => match ZstdSink::new(sink) {
                Ok(s) => Ok(FlateEncoder::Zstd(s)),
                Err(e) => Err(FlateCompressionError::ZstdError(e)),
            },
        }
    }

    /// Takes all of `buf` into the stream and returns its length.
    pub fn write(&mut self, buf: &[u8]) -> (r: Result<usize, FlateCompressionError>)
        ensures
            r matches Ok(n) && n == buf@.len(),
            final(self).method() == old(self).method(),
            final(self).sink() == old(self).sink(),
            final(self).written() == old(self).written() + buf@,
    {
        let outcome = match self {
            FlateEncoder::Deflate(s) => s.write_all(buf),
            FlateEncoder::Zstd(s) => s.write_all(buf),
        };
        match outcome {
            Ok(()) => Ok(buf.len()),
            Err(e) => Err(FlateCompressionError::IoError(e)),
        }
    }

    /// Pushes what the backend buffers out into the vector; takes no input.
    pub fn flush(&mut self) -> (r: Result<(), FlateCompressionError>)
        ensures
            r is Ok,
            final(self).method() == old(self).method(),
            final(self).sink() == old(self).sink(),
            final(self).written() == old(self).written(),
    {
        let outcome = match self {
            FlateEncoder::Deflate(s) => s.flush(),
            FlateEncoder::Zstd(s) => s.flush(),
        };
        match outcome {
            Ok(()) => Ok(()),
            Err(e) => Err(FlateCompressionError::IoError(e)),
        }
    }

    /// Ends the stream and returns the vector: what it held before, followed
    /// by a stream of the method that decodes to everything written.
    pub fn finish_encode(self) -> (r: Result<Vec<u8>, FlateCompressionError>)
        ensures
            r matches Ok(out) && {
                &&& out@.len() >= self.sink().len()
                &&& out@.subrange(0, self.sink().len() as int) == self.sink()
                &&& decoded(self.method(), out@.subrange(self.sink().len() as int, out@.len() as int))
                    == Some(self.written())
            },
    {
        match self {
            FlateEncoder::Deflate(s) => match s.finish() {
                Ok(out) => Ok(out),
                Err(e) => Err(FlateCompressionError::DeflateError(e)),
            },
            FlateEncoder::Zstd(s) => match s.finish() {
                Ok(out) => Ok(out),
                Err(e) => Err(FlateCompressionError::ZstdError(e)),
            },
        }
    }
}

/// A read-only source of decompressed bytes, bound to one compression method
/// and one compressed input, read forward only.
///
/// Making one reads nothing. The first read decodes the input as a whole: a
/// malformed input is reported there, before any byte is handed out, and
/// never yields part of its content.
pub struct FlateDecoder<'a> {
    method: CompressionMethod,
    source: &'a [u8],
    started: bool,
    content: Vec<u8>,
    pos: usize,
}

impl<'a> FlateDecoder<'a> {
    /// The method the decoder decompresses with.
    pub closed spec fn method(&self) -> CompressionMethod {
        self.method
    }

    /// The compressed input.
    pub closed spec fn source(&self) -> Seq<u8> {
        self.source@
    }

    /// How many decompressed bytes have been handed out.
    pub closed spec fn position(&self) -> nat {
        self.pos as nat
    }

    /// The decoder's invariant: once the input is decoded, the decoder holds
    /// its content and the position lies within it; before, nothing has been
    /// handed out.
    pub closed spec fn wf(&self) -> bool {
        &&& self.pos <= self.content@.len()
        &&& self.started ==> decoded(self.method, self.source@) == Some(self.content@)
        &&& self.started ==> !malformed_start(self.method, self.source@)
        &&& !self.started ==> self.pos == 0
    }

    /// Binds a decoder for `method` to `source`, reading nothing yet.
    pub fn new(method: CompressionMethod, source: &'a [u8]) -> (r: Result<FlateDecoder<'a>, FlateCompressionError>)
        ensures
            r matches Ok(d) && d.wf() && d.method() == method && d.source() == source@ && d.position() == 0,
    {
        Ok(FlateDecoder { method, source, started: false, content: Vec::new(), pos: 0 })
    }

    /// Appends to `buf` the next decompressed bytes, at most `max` of them and
    /// as many as remain up to that, and returns how many; it returns 0 only
    /// where `max` is 0 or the content is exhausted. Where the input is not a
    /// well-formed stream of the method, it fails and hands out nothing.
    pub fn read(&mut self, buf: &mut Vec<u8>, max: usize) -> (r: Result<usize, FlateCompressionError>)
        requires
            old(self).wf(),
        ensures
            final(self).wf(),
            final(self).method() == old(self).method(),
            final(self).source() == old(self).source(),
            malformed_start(old(self).method(), old(self).source()) ==> r is Err,
            match decoded(old(self).method(), old(self).source()) {
                None => {
                    &&& r matches Err(e) && e.is_backend_failure(old(self).method())
                    &&& final(buf)@ == old(buf)@
                    &&& final(self).position() == old(self).position()
                },
                Some(content) => {
                    let left = content.len() - old(self).position();
                    let n = if max < left { max as int } else { left };
                    &&& r == Ok::<usize, FlateCompressionError>(n as usize)
                    &&& final(self).position() == old(self).position() + n
                    &&& final(buf)@ == old(buf)@ + content.subrange(
                        old(self).position() as int,
                        old(self).position() + n,
                    )
                },
            },
    {
        if !self.started {
            match decompress(self.method, self.source) {
                Ok(c) => {
                    self.content = c;
                    self.started = true;
                },
                Err(e) => return Err(e),
            }
        }
        let left = self.content.len() - self.pos;
        let n = if max < left { max } else { left };
        let ghost start = buf@;
        let mut i: usize = 0;
        while i < n
            invariant
                self.pos + n <= self.content.len(),
                i <= n,
                buf@ == start + self.content@.subrange(self.pos as int, self.pos + i),
            decreases n - i,
        {
            buf.push(self.content[self.pos + i]);
            assert(self.content@.subrange(self.pos as int, self.pos + i + 1)
                == self.content@.subrange(self.pos as int, self.pos + i).push(self.content@[self.pos + i]));
            i += 1;
        }
        self.pos = self.pos + n;
        Ok(n)
    }
}

/// Compresses all of `source` with `method` and appends the compressed stream
/// to `sink`.
pub fn apply_compression(source: &[u8], sink: &mut Vec<u8>, method: CompressionMethod) -> (r: Result<(), FlateCompressionError>)
    ensures
        r is Ok,
        final(sink)@ == old(sink)@ + encoded(method, source@),
        decoded(method, encoded(method, source@)) == Some(source@),
{
    match compress(method, source) {
        Ok(mut c) => {
            sink.append(&mut c);
            Ok(())
        },
        Err(e) => Err(e),
    }
}

/// Decompresses `source` with `method` and appends what it holds to `sink`;
/// fails, leaving `sink` as it was, exactly when `source` is not a well-formed
/// stream of that method.
pub fn apply_decompression(source: &[u8], sink: &mut Vec<u8>, method: CompressionMethod) -> (r: Result<(), FlateCompressionError>)
    ensures
        r is Ok <==> decoded(method, source@) is Some,
        malformed_start(method, source@) ==> r is Err,
        match r {
            Ok(()) => decoded(method, source@) == Some(final(sink)@.subrange(old(sink)@.len() as int, final(sink)@.len() as int))
                && final(sink)@.len() >= old(sink)@.len()
                && final(sink)@.subrange(0, old(sink)@.len() as int) == old(sink)@,
            Err(e) => final(sink)@ == old(sink)@ && e.is_backend_failure(method),
        },
{
    let mut decoder = match method.decoder(source) {
        Ok(d) => d,
        Err(e) => return Err(e),
    };
    let ghost start = sink@;
    match decoder.read(sink, CHUNK_SIZE) {
        Ok(_) => {},
        Err(e) => return Err(e),
    }
    let ghost content = decoded(method, source@)->0;
    loop
        invariant
            decoder.wf(),
            decoder.method() == method,
            decoder.source() == source@,
            decoded(method, source@) == Some(content),
            decoder.position() <= content.len(),
            sink@ == start + content.subrange(0, decoder.position() as int),
        ensures
            decoder.position() == content.len(),
        decreases content.len() - decoder.position(),
    {
        let ghost before = decoder.position();
        // This cannot fail: the first read found the input well-formed.
        let n = match decoder.read(sink, CHUNK_SIZE) {
            Ok(n) => n,
            Err(_) => 0,
        };
        assert(content.subrange(0, before as int) + content.subrange(before as int, before + n)
            == content.subrange(0, decoder.position() as int));
        if n == 0 {
            break;
        }
    }
    assert(content.subrange(0, content.len() as int) == content);
    assert(sink@.subrange(0, start.len() as int) == start);
    assert(sink@.subrange(start.len() as int, sink@.len() as int) == content);
    Ok(())
}

impl CompressionMethod {
    /// An encoder for this method, bound to `sink`.
    pub fn encoder(&self, sink: Vec<u8>) -> (r: Result<FlateEncoder, FlateCompressionError>)
        ensures
            r matches Ok(e) && e.method() == *self && e.sink() == sink@ && e.written() == Seq::<u8>::empty(),
    {
        FlateEncoder::new(*self, sink)
    }

    /// A decoder for this method over `source`, reading nothing yet.
    pub fn decoder<'a>(&self, source: &'a [u8]) -> (r: Result<FlateDecoder<'a>, FlateCompressionError>)
        ensures
            r matches Ok(d) && d.wf() && d.method() == *self && d.source() == source@ && d.position() == 0,
    {
        FlateDecoder::new(*self, source)
    }
}

} // verus!
