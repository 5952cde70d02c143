//! The framing codec: sending and receiving one payload per frame over a
//! byte stream, staging the payload in a reusable scratch buffer.
//!
//! [`Sender::send`] writes the 8-byte little-endian length of the encoded
//! payload, then the payload itself, then flushes.  [`Receiver::receive`]
//! reads the length, then exactly that many payload bytes, then decodes.
//! Both restore the scratch buffer to its configured size before returning,
//! whether the operation succeeded or failed.

use core::marker::PhantomData;

use vstd::prelude::*;
use vstd::bytes::{
    lemma_auto_spec_u64_to_from_le_bytes, spec_u64_from_le_bytes, spec_u64_to_le_bytes,
    u64_from_le_bytes, u64_to_le_bytes,
};

use crate::error::{CodecError, ReadError};
use crate::frame::spec_frame;
use crate::payload::Payload;
use crate::stream::{ByteSink, ByteSource, MemSink, MemSource};

verus! {

/// What sending a payload does to a sink in state `m`: the resulting state,
/// and the result handed back to the caller.
///
/// The header is written first, then the payload, then the sink is flushed;
/// the first failure aborts the operation and surfaces its kind unchanged.
pub open spec fn spec_send<W: ByteSink>(m: W::Model, payload: Seq<u8>) -> (W::Model, Result<
    (),
    CodecError,
>) {
    let header = spec_u64_to_le_bytes(payload.len() as u64);
    match W::write_result(m, header) {
        Err(k) => (W::after_write(m, header), Err(CodecError::Io(k))),
        Ok(_) => {
            let m1 = W::after_write(m, header);
            match W::write_result(m1, payload) {
                Err(k) => (W::after_write(m1, payload), Err(CodecError::Io(k))),
                Ok(_) => {
                    let m2 = W::after_write(m1, payload);
                    match W::flush_result(m2) {
                        Err(k) => (W::after_flush(m2), Err(CodecError::Io(k))),
                        Ok(_) => (W::after_flush(m2), Ok(())),
                    }
                },
            }
        },
    }
}

/// What receiving a frame does to a source in state `m`: the resulting
/// state, and the abstract value or failure handed back to the caller.
///
/// 8 header bytes are read and interpreted as a little-endian length, then
/// exactly that many payload bytes are read and decoded.  A read failure in
/// either phase surfaces its kind unchanged; payload bytes that do not
/// decode are a [`CodecError::Decode`], as is a length beyond what this
/// machine can hold in memory.
pub open spec fn spec_receive<R: ByteSource, T: Payload>(m: R::Model) -> (R::Model, Result<
    T::V,
    CodecError,
>) {
    match R::read_result(m, 8) {
        Err(e) => (R::after_read(m, 8), Err(CodecError::spec_from_read(e))),
        Ok(header) => {
            let m1 = R::after_read(m, 8);
            let n = spec_u64_from_le_bytes(header);
            if n > usize::MAX {
                (m1, Err(CodecError::Decode))
            } else {
                match R::read_result(m1, n as nat) {
                    Err(e) => (R::after_read(m1, n as nat), Err(CodecError::spec_from_read(e))),
                    Ok(body) => {
                        let m2 = R::after_read(m1, n as nat);
                        match T::parses(body) {
                            Some(v) => (m2, Ok(v)),
                            None => (m2, Err(CodecError::Decode)),
                        }
                    },
                }
            }
        },
    }
}

/// The encoding half of a framed connection: one payload type, one sink,
/// one scratch buffer of configured size.
pub struct Sender<W, T> {
    sink: W,
    buf: Vec<u8>,
    buf_size: usize,
    _payload: PhantomData<T>,
}

impl<W: ByteSink, T: Payload> Sender<W, T> {
    /// The sink this sender writes to.
    pub closed spec fn sink(&self) -> W {
        self.sink
    }

    /// The contents of the scratch buffer.
    pub closed spec fn spec_buf(&self) -> Seq<u8> {
        self.buf@
    }

    /// The configured scratch-buffer size.
    pub closed spec fn buf_size(&self) -> usize {
        self.buf_size
    }

    /// A sender over `sink` whose scratch buffer holds `buf_size` bytes
    /// between operations.
    pub fn new(sink: W, buf_size: usize) -> (r: Self)
        ensures
            r.sink() == sink,
            r.buf_size() == buf_size,
            r.spec_buf().len() == 0,
    {
        Sender { sink, buf: Vec::with_capacity(buf_size), buf_size, _payload: PhantomData }
    }

    /// The allocated capacity of the scratch buffer right now.
    pub fn buf_capacity(&self) -> usize {
        vec_capacity(&self.buf)
    }

    /// The sink this sender writes to.
    pub fn sink_ref(&self) -> (r: &W)
        ensures
            *r == self.sink(),
    {
        &self.sink
    }

    /// Restore the scratch buffer: empty, at the configured size.
    fn reset_buf(&mut self)
        ensures
            final(self).sink() == old(self).sink(),
            final(self).buf_size() == old(self).buf_size(),
            final(self).spec_buf().len() == 0,
    {
        self.buf = Vec::with_capacity(self.buf_size);
    }

}

impl<W: ByteSink, T: Payload> crate::sender::Sender<T> for Sender<W, T> {
    type Error = CodecError;

    /// One send writes the frame for the message's encoding and flushes:
    /// the result and the sink's new state are exactly those of
    /// [`spec_send`]; on success the sink has absorbed exactly one new
    /// frame carrying the encoding; and in every case — success or
    /// failure — the scratch buffer is left empty at its configured size.
    open spec fn send_spec(&self, message: T, r: Result<(), CodecError>, next: Self) -> bool {
        let (m2, rr) = spec_send::<W>(self.sink().model(), T::wire(message@));
        &&& next.sink().model() == m2
        &&& r == rr
        &&& next.spec_buf().len() == 0
        &&& next.buf_size() == self.buf_size()
        &&& (r is Ok ==> W::absorbed(next.sink().model()) == W::absorbed(self.sink().model())
            + spec_frame(T::wire(message@)))
    }

    /// Send one value as a frame: its encoded bytes, preceded by their
    /// 8-byte little-endian count, followed by a flush.
    fn send(&mut self, message: T) -> (r: Result<(), CodecError>) {
        let ghost m0 = self.sink.model();
        let ghost payload = T::wire(message@);
        self.buf = message.encode();
        let header = u64_to_le_bytes(self.buf.len() as u64);
        let r1 = self.sink.write_all(header.as_slice());
        if let Err(k) = r1 {
            self.reset_buf();
            return Err(CodecError::Io(k));
        }
        let ghost m1 = self.sink.model();
        let r2 = self.sink.write_all(self.buf.as_slice());
        if let Err(k) = r2 {
            self.reset_buf();
            return Err(CodecError::Io(k));
        }
        let ghost m2 = self.sink.model();
        let r3 = self.sink.flush();
        self.reset_buf();
        match r3 {
            Err(k) => Err(CodecError::Io(k)),
            Ok(_) => {
                proof {
                    W::absorb_law(m0, spec_u64_to_le_bytes(payload.len() as u64));
                    W::absorb_law(m1, payload);
                    W::absorb_law(m2, payload);
                    assert(W::absorbed(m0) + spec_u64_to_le_bytes(payload.len() as u64) + payload
                        =~= W::absorbed(m0) + spec_frame(payload));
                }
                Ok(())
            },
        }
    }
}

/// The decoding half of a framed connection: one payload type, one source,
/// one scratch buffer of configured size.
pub struct Receiver<R, T> {
    source: R,
    buf: Vec<u8>,
    buf_size: usize,
    _payload: PhantomData<T>,
}

impl<R: ByteSource, T: Payload> Receiver<R, T> {
    /// The source this receiver reads from.
    pub closed spec fn source(&self) -> R {
        self.source
    }

    /// The contents of the scratch buffer.
    pub closed spec fn spec_buf(&self) -> Seq<u8> {
        self.buf@
    }

    /// The configured scratch-buffer size.
    pub closed spec fn buf_size(&self) -> usize {
        self.buf_size
    }

    /// A receiver over `source` whose scratch buffer holds `buf_size` bytes
    /// between operations.
    pub fn new(source: R, buf_size: usize) -> (r: Self)
        ensures
            r.source() == source,
            r.buf_size() == buf_size,
            r.spec_buf().len() == 0,
    {
        Receiver { source, buf: Vec::with_capacity(buf_size), buf_size, _payload: PhantomData }
    }

    /// The allocated capacity of the scratch buffer right now.
    pub fn buf_capacity(&self) -> usize {
        vec_capacity(&self.buf)
    }

    /// Restore the scratch buffer: empty, at the configured size.
    fn reset_buf(&mut self)
        ensures
            final(self).source() == old(self).source(),
            final(self).buf_size() == old(self).buf_size(),
            final(self).spec_buf().len() == 0,
    {
        self.buf = Vec::with_capacity(self.buf_size);
    }

}

impl<R: ByteSource, T: Payload> crate::receiver::Receiver<T> for Receiver<R, T> {
    type Error = CodecError;

    /// One receive consumes a frame: the failure (or the view of the
    /// received value) and the source's new state are exactly those of
    /// [`spec_receive`]; and in every case the scratch buffer is left
    /// empty at its configured size.
    open spec fn recv_spec(&self, r: Result<T, CodecError>, next: Self) -> bool {
        let (m2, rr) = spec_receive::<R, T>(self.source().model());
        &&& next.source().model() == m2
        &&& next.spec_buf().len() == 0
        &&& next.buf_size() == self.buf_size()
        &&& match (r, rr) {
            (Ok(t), Ok(v)) => t@ == v,
            (Err(e), Err(e2)) => e == e2,
            _ => false,
        }
    }

    /// Receive one value from a frame: read its 8-byte little-endian
    /// length, then exactly that many payload bytes, then decode them.
    /// A frame of length 0 is valid and decodes an empty payload.
    fn receive(&mut self) -> (r: Result<T, CodecError>) {
        let ghost m0 = self.source.model();
        let header = match self.source.read_exact(8) {
            Ok(v) => v,
            Err(e) => {
                self.reset_buf();
                return Err(CodecError::from_read(e));
            },
        };
        proof {
            R::read_len_law(m0, 8);
        }
        let n64 = u64_from_le_bytes(header.as_slice());
        if n64 > usize::MAX as u64 {
            self.reset_buf();
            return Err(CodecError::Decode);
        }
        let n = n64 as usize;
        let ghost m1 = self.source.model();
        let body = match self.source.read_exact(n) {
            Ok(v) => v,
            Err(e) => {
                self.reset_buf();
                return Err(CodecError::from_read(e));
            },
        };
        self.buf = body;
        let parsed = T::decode(self.buf.as_slice());
        self.reset_buf();
        match parsed {
            Some(t) => Ok(t),
            None => Err(CodecError::Decode),
        }
    }
}

/// Relies on `Vec::capacity` to report the scratch buffer's allocated
/// capacity; nothing is assumed of the value.
#[verifier::external_body]
fn vec_capacity(v: &Vec<u8>) -> usize {
    v.capacity()
}

/// Round-trip: a frame produced by sending a well-formed value, received
/// back, yields that value and consumes the whole stream.  Sending never
/// fails on an in-memory sink, and appends exactly one frame.
pub proof fn lemma_round_trip<T: Payload>(m: Seq<u8>, v: T::V)
    requires
        T::wf_value(v),
        T::wire(v).len() <= usize::MAX,
    ensures
        spec_send::<MemSink>(m, T::wire(v)) == (m + spec_frame(T::wire(v)), Ok::<(), CodecError>(
            (),
        )),
        spec_receive::<MemSource, T>(spec_frame(T::wire(v))) == (Seq::<u8>::empty(), Ok::<
            T::V,
            CodecError,
        >(v)),
{
    lemma_auto_spec_u64_to_from_le_bytes();
    let payload = T::wire(v);
    let frame = spec_frame(payload);
    let header = spec_u64_to_le_bytes(payload.len() as u64);
    assert(spec_send::<MemSink>(m, payload).0 =~= m + frame);
    assert(frame.len() == 8 + payload.len());
    assert(frame.take(8) =~= header);
    assert(frame.skip(8) =~= payload);
    assert(frame.skip(8).take(payload.len() as int) =~= payload);
    T::round_trip(v);
    assert(spec_receive::<MemSource, T>(frame).0 =~= Seq::<u8>::empty());
}

/// Failure-kind preservation: a stream failure of a given kind during the
/// length-read phase, or during the payload-read phase, surfaces from
/// `receive` with that kind unchanged; the clean end of the stream
/// likewise surfaces as the distinguished end-of-stream error.
pub proof fn lemma_fault_kind_preserved<R: ByteSource, T: Payload>(m: R::Model)
    ensures
        R::read_result(m, 8) matches Err(e) ==> spec_receive::<R, T>(m).1 == Err::<T::V, CodecError>(
            CodecError::spec_from_read(e),
        ),
        ({
            &&& R::read_result(m, 8) matches Ok(header)
            &&& spec_u64_from_le_bytes(header) <= usize::MAX
            &&& R::read_result(R::after_read(m, 8), spec_u64_from_le_bytes(header) as nat)
                matches Err(e2)
        }) ==> spec_receive::<R, T>(m).1 == Err::<T::V, CodecError>(
            CodecError::spec_from_read(
                R::read_result(R::after_read(m, 8), spec_u64_from_le_bytes(
                    R::read_result(m, 8)->Ok_0,
                ) as nat)->Err_0,
            ),
        ),
{
}

} // verus!
