//! Packet compression: the capability a user supplies, and the buffers it
//! reads from and writes to.

use vstd::prelude::*;
use vstd::std_specs::convert::FromSpecImpl;

verus! {

/// Generic packet (de)compression error.
///
/// An IO error converts into it, so that the `?` operator can be used on IO
/// results inside (de)compressor methods.
#[derive(Clone, Copy, Debug)]
pub struct Error;

impl From<std::io::Error> for Error {
    fn from(_err: std::io::Error) -> (r: Self) {
        Error
    }
}

impl FromSpecImpl<std::io::Error> for Error {
    open spec fn obeys_from_spec() -> bool {
        true
    }

    open spec fn from_spec(_err: std::io::Error) -> Self {
        Error
    }
}

/// A pluggable capability that transforms wire buffers to reduce bandwidth.
pub trait Compressor {
    /// Compress input buffers into an output buffer.
    ///
    /// Not writing anything into the output buffer makes the host operation
    /// that is under way report an error.
    fn compress(
        &mut self,
        input_buffers: &[InputBuffer],
        output_buffer: &mut OutputBuffer,
    ) -> Result<(), Error>;

    /// Decompress input buffers into an output buffer.
    ///
    /// Not writing anything into the output buffer makes the host operation
    /// that is under way report an error.
    fn decompress(
        &mut self,
        input_buffers: &[InputBuffer],
        output_buffer: &mut OutputBuffer,
    ) -> Result<(), Error>;
}

/// Compression input buffer, essentially a fancy byte slice.
///
/// Use [`InputBuffer::as_ref`] to get access to the contained data.
#[derive(Clone, Copy, Debug)]
pub struct InputBuffer<'a> {
    buffer: &'a [u8],
}

impl<'a> View for InputBuffer<'a> {
    type V = Seq<u8>;

    closed spec fn view(&self) -> Seq<u8> {
        self.buffer@
    }
}

impl<'a> InputBuffer<'a> {
    /// A view of `data` that lasts as long as the borrow does.
    pub fn new(data: &'a [u8]) -> (buffer: InputBuffer<'a>)
        ensures
            buffer@ == data@,
    {
        InputBuffer { buffer: data }
    }

    /// The bytes of the buffer.
    pub fn as_ref(&self) -> (data: &[u8])
        ensures
            data@ == self@,
    {
        self.buffer
    }
}

/// Whether an IO error is of the kind `WriteZero`, that is, whether
/// `std::io::Error::kind` returns `std::io::ErrorKind::WriteZero` for it.
pub uninterp spec fn is_write_zero(err: std::io::Error) -> bool;

/// `std::io::Error::from` on `std::io::ErrorKind::WriteZero`. The contract
/// claims that the error made from a kind is of that kind.
#[verifier::external_body]
fn write_zero() -> (err: std::io::Error)
    ensures
        is_write_zero(err),
{
    std::io::Error::from(std::io::ErrorKind::WriteZero)
}

/// What an [`OutputBuffer`] stands for: the bytes written so far, and the
/// total number of bytes it can take.
pub struct Sink {
    pub written: Seq<u8>,
    pub length: nat,
}

/// (De)compression output buffer: a sink of fixed length that never grows.
#[derive(Debug)]
pub struct OutputBuffer {
    buffer: Vec<u8>,
    length: usize,
}

impl View for OutputBuffer {
    type V = Sink;

    closed spec fn view(&self) -> Sink {
        Sink { written: self.buffer@, length: self.length as nat }
    }
}

impl OutputBuffer {
    #[verifier::type_invariant]
    spec fn within_length(self) -> bool {
        self.buffer@.len() <= self.length
    }

    /// An empty buffer that takes `length` bytes.
    pub fn new(length: usize) -> (buffer: OutputBuffer)
        ensures
            buffer@ == (Sink { written: Seq::empty(), length: length as nat }),
    {
        OutputBuffer { buffer: Vec::new(), length }
    }

    /// Total buffer length.
    pub fn len(&self) -> (length: usize)
        ensures
            length == self@.length,
    {
        self.length
    }

    /// Whether the buffer can take any byte at all: `true` unless its total
    /// length is zero.
    pub fn is_empty(&self) -> (b: bool)
        ensures
            b == (self@.length != 0),
    {
        self.length != 0
    }

    /// Number of written bytes.
    pub fn written(&self) -> (written: usize)
        ensures
            written == self@.written.len(),
            written <= self@.length,
    {
        proof {
            use_type_invariant(self);
        }
        self.buffer.len()
    }

    /// The bytes written so far.
    pub fn as_slice(&self) -> (data: &[u8])
        ensures
            data@ == self@.written,
            data@.len() <= self@.length,
    {
        proof {
            use_type_invariant(self);
        }
        self.buffer.as_slice()
    }

    /// Write processed data to the buffer, behind what was written before.
    ///
    /// Writing more than `self.len()` bytes in total fails with an IO error of
    /// the kind `WriteZero` and writes nothing.
    pub fn write(&mut self, data: &[u8]) -> (r: Result<usize, std::io::Error>)
        ensures
            r is Err <==> old(self)@.written.len() + data@.len() > old(self)@.length,
            r is Ok ==> r->Ok_0 == data@.len() && final(self)@ == (Sink {
                written: old(self)@.written + data@,
                length: old(self)@.length,
            }),
            r is Err ==> final(self)@ == old(self)@ && is_write_zero(r->Err_0),
    {
        proof {
            use_type_invariant(&*self);
        }
        if data.len() > self.length - self.buffer.len() {
            return Err(write_zero());
        }
        let length = self.length;
        let mut buffer: Vec<u8> = Vec::new();
        core::mem::swap(&mut buffer, &mut self.buffer);
        let ghost before = buffer@;
        let mut i: usize = 0;
        while i < data.len()
            invariant
                i <= data@.len(),
                before.len() + data@.len() <= length,
                buffer@ == before + data@.take(i as int),
            decreases data@.len() - i,
        {
            buffer.push(data[i]);
            assert(data@.take(i as int + 1) == data@.take(i as int).push(data@[i as int]));
            i = i + 1;
        }
        assert(data@.take(i as int) == data@);
        *self = OutputBuffer { buffer, length };
        Ok(data.len())
    }

    /// Calling this function has no effect.
    pub fn flush(&mut self) -> (r: Result<(), std::io::Error>)
        ensures
            r is Ok,
            final(self)@ == old(self)@,
    {
        Ok(())
    }
}

} // verus!
