//! Byte-stream capabilities consumed by the framing codec, and in-memory
//! implementations of them.
//!
//! Each stream trait carries an abstract model of the stream's state, so
//! that the codec's contracts can say exactly which bytes moved and which
//! failure, if any, was reported.  The in-memory streams here are verified
//! implementations; they stage bytes for the codec and double as test
//! streams, sound ones and faulty ones.

use vstd::prelude::*;
use vstd::slice::{slice_subrange, slice_to_vec};

use crate::error::ReadError;

verus! {

/// A sink of bytes: the writing half of a duplex stream.
pub trait ByteSink: Sized {
    /// The abstract state of the sink.
    type Model;

    /// The abstract state of this sink value.
    spec fn model(&self) -> Self::Model;

    /// The bytes the sink has successfully absorbed, oldest first.
    spec fn absorbed(m: Self::Model) -> Seq<u8>;

    /// Whether writing `data` in state `m` succeeds, or with what kind of
    /// failure it fails.
    spec fn write_result(m: Self::Model, data: Seq<u8>) -> Result<(), u32>;

    /// The state after writing `data` in state `m`.
    spec fn after_write(m: Self::Model, data: Seq<u8>) -> Self::Model;

    /// Whether flushing in state `m` succeeds.
    spec fn flush_result(m: Self::Model) -> Result<(), u32>;

    /// The state after flushing in state `m`.
    spec fn after_flush(m: Self::Model) -> Self::Model;

    /// A successful write absorbs exactly the written bytes; flushing
    /// absorbs nothing.
    proof fn absorb_law(m: Self::Model, data: Seq<u8>)
        ensures
            Self::write_result(m, data) is Ok ==> Self::absorbed(Self::after_write(m, data))
                == Self::absorbed(m) + data,
            Self::absorbed(Self::after_flush(m)) == Self::absorbed(m),
    ;

    /// Write all of `data`, or fail with the kind of the first failure.
    fn write_all(&mut self, data: &[u8]) -> (r: Result<(), u32>)
        ensures
            r == Self::write_result(old(self).model(), data@),
            final(self).model() == Self::after_write(old(self).model(), data@),
    ;

    /// Flush buffered bytes down the stream.
    fn flush(&mut self) -> (r: Result<(), u32>)
        ensures
            r == Self::flush_result(old(self).model()),
            final(self).model() == Self::after_flush(old(self).model()),
    ;
}

/// A source of bytes: the reading half of a duplex stream.
pub trait ByteSource: Sized {
    /// The abstract state of the source.
    type Model;

    /// The abstract state of this source value.
    spec fn model(&self) -> Self::Model;

    /// What reading exactly `n` bytes in state `m` yields.
    spec fn read_result(m: Self::Model, n: nat) -> Result<Seq<u8>, ReadError>;

    /// The state after reading `n` bytes in state `m`.
    spec fn after_read(m: Self::Model, n: nat) -> Self::Model;

    /// A successful read yields exactly the requested number of bytes.
    proof fn read_len_law(m: Self::Model, n: nat)
        ensures
            Self::read_result(m, n) matches Ok(s) ==> s.len() == n,
    ;

    /// Read exactly `n` bytes, or fail: with [`ReadError::Eof`] when the
    /// stream ends first, with [`ReadError::Io`] on any other failure.
    fn read_exact(&mut self, n: usize) -> (r: Result<Vec<u8>, ReadError>)
        ensures
            final(self).model() == Self::after_read(old(self).model(), n as nat),
            match r {
                Ok(v) => Self::read_result(old(self).model(), n as nat) == Ok::<
                    Seq<u8>,
                    ReadError,
                >(v@),
                Err(e) => Self::read_result(old(self).model(), n as nat) == Err::<
                    Seq<u8>,
                    ReadError,
                >(e),
            },
    ;
}

/// An in-memory sink that absorbs every byte written to it.
pub struct MemSink {
    data: Vec<u8>,
}

impl MemSink {
    /// A fresh sink holding no bytes.
    pub fn new() -> (r: MemSink)
        ensures
            r.model() == Seq::<u8>::empty(),
    {
        MemSink { data: Vec::new() }
    }

    /// The bytes absorbed so far.
    pub fn contents(&self) -> (r: &Vec<u8>)
        ensures
            r@ == self.model(),
    {
        &self.data
    }
}

impl ByteSink for MemSink {
    type Model = Seq<u8>;

    closed spec fn model(&self) -> Seq<u8> {
        self.data@
    }

    open spec fn absorbed(m: Seq<u8>) -> Seq<u8> {
        m
    }

    open spec fn write_result(m: Seq<u8>, data: Seq<u8>) -> Result<(), u32> {
        Ok(())
    }

    open spec fn after_write(m: Seq<u8>, data: Seq<u8>) -> Seq<u8> {
        m + data
    }

    open spec fn flush_result(m: Seq<u8>) -> Result<(), u32> {
        Ok(())
    }

    open spec fn after_flush(m: Seq<u8>) -> Seq<u8> {
        m
    }

    proof fn absorb_law(m: Seq<u8>, data: Seq<u8>) {
    }

    fn write_all(&mut self, data: &[u8]) -> (r: Result<(), u32>) {
        let mut tail = slice_to_vec(data);
        self.data.append(&mut tail);
        Ok(())
    }

    fn flush(&mut self) -> (r: Result<(), u32>) {
        Ok(())
    }
}

/// An in-memory source that serves bytes from a fixed buffer, then ends.
pub struct MemSource {
    data: Vec<u8>,
}

impl MemSource {
    /// A source that will serve exactly the given bytes.
    pub fn new(data: Vec<u8>) -> (r: MemSource)
        ensures
            r.model() == data@,
    {
        MemSource { data }
    }
}

impl ByteSource for MemSource {
    type Model = Seq<u8>;

    closed spec fn model(&self) -> Seq<u8> {
        self.data@
    }

    open spec fn read_result(m: Seq<u8>, n: nat) -> Result<Seq<u8>, ReadError> {
        if n <= m.len() {
            Ok(m.take(n as int))
        } else {
            Err(ReadError::Eof)
        }
    }

    open spec fn after_read(m: Seq<u8>, n: nat) -> Seq<u8> {
        if n <= m.len() {
            m.skip(n as int)
        } else {
            m
        }
    }

    proof fn read_len_law(m: Seq<u8>, n: nat) {
    }

    fn read_exact(&mut self, n: usize) -> (r: Result<Vec<u8>, ReadError>) {
        if n > self.data.len() {
            return Err(ReadError::Eof);
        }
        let taken = slice_to_vec(slice_subrange(self.data.as_slice(), 0, n));
        let tail = self.data.split_off(n);
        self.data = tail;
        proof {
            assert(taken@ =~= Self::read_result(old(self).model(), n as nat)->Ok_0);
            assert(self.data@ =~= Self::after_read(old(self).model(), n as nat));
        }
        Ok(taken)
    }
}

/// A sink that fails every write or every flush with a fixed failure kind:
/// a test double for a broken stream.
pub struct FaultySink {
    /// The kind with which every write fails, if any.
    write_fault: Option<u32>,
    /// The kind with which every flush fails, if any.
    flush_fault: Option<u32>,
    data: Vec<u8>,
}

impl FaultySink {
    /// A sink whose writes or flushes fail with the given kinds.
    pub fn new(write_fault: Option<u32>, flush_fault: Option<u32>) -> (r: FaultySink)
        ensures
            r.model() == (write_fault, flush_fault, Seq::<u8>::empty()),
    {
        FaultySink { write_fault, flush_fault, data: Vec::new() }
    }
}

impl ByteSink for FaultySink {
    type Model = (Option<u32>, Option<u32>, Seq<u8>);

    closed spec fn model(&self) -> (Option<u32>, Option<u32>, Seq<u8>) {
        (self.write_fault, self.flush_fault, self.data@)
    }

    open spec fn absorbed(m: (Option<u32>, Option<u32>, Seq<u8>)) -> Seq<u8> {
        m.2
    }

    open spec fn write_result(m: (Option<u32>, Option<u32>, Seq<u8>), data: Seq<u8>) -> Result<
        (),
        u32,
    > {
        match m.0 {
            Some(k) => Err(k),
            None => Ok(()),
        }
    }

    open spec fn after_write(m: (Option<u32>, Option<u32>, Seq<u8>), data: Seq<u8>) -> (
        Option<u32>,
        Option<u32>,
        Seq<u8>,
    ) {
        match m.0 {
            Some(_) => m,
            None => (m.0, m.1, m.2 + data),
        }
    }

    open spec fn flush_result(m: (Option<u32>, Option<u32>, Seq<u8>)) -> Result<(), u32> {
        match m.1 {
            Some(k) => Err(k),
            None => Ok(()),
        }
    }

    open spec fn after_flush(m: (Option<u32>, Option<u32>, Seq<u8>)) -> (
        Option<u32>,
        Option<u32>,
        Seq<u8>,
    ) {
        m
    }

    proof fn absorb_law(m: (Option<u32>, Option<u32>, Seq<u8>), data: Seq<u8>) {
    }

    fn write_all(&mut self, data: &[u8]) -> (r: Result<(), u32>) {
        match self.write_fault {
            Some(k) => Err(k),
            None => {
                let mut tail = slice_to_vec(data);
                self.data.append(&mut tail);
                Ok(())
            },
        }
    }

    fn flush(&mut self) -> (r: Result<(), u32>) {
        match self.flush_fault {
            Some(k) => Err(k),
            None => Ok(()),
        }
    }
}

/// A source that serves bytes from a buffer and then fails with a fixed
/// kind instead of ending cleanly: a test double for a dying stream.
pub struct FaultySource {
    kind: u32,
    data: Vec<u8>,
}

impl FaultySource {
    /// A source that serves the given bytes, then fails with `kind`.
    pub fn new(data: Vec<u8>, kind: u32) -> (r: FaultySource)
        ensures
            r.model() == (data@, kind),
    {
        FaultySource { kind, data }
    }
}

impl ByteSource for FaultySource {
    type Model = (Seq<u8>, u32);

    closed spec fn model(&self) -> (Seq<u8>, u32) {
        (self.data@, self.kind)
    }

    open spec fn read_result(m: (Seq<u8>, u32), n: nat) -> Result<Seq<u8>, ReadError> {
        if n <= m.0.len() {
            Ok(m.0.take(n as int))
        } else {
            Err(ReadError::Io(m.1))
        }
    }

    open spec fn after_read(m: (Seq<u8>, u32), n: nat) -> (Seq<u8>, u32) {
        if n <= m.0.len() {
            (m.0.skip(n as int), m.1)
        } else {
            m
        }
    }

    proof fn read_len_law(m: (Seq<u8>, u32), n: nat) {
    }

    fn read_exact(&mut self, n: usize) -> (r: Result<Vec<u8>, ReadError>) {
        if n > self.data.len() {
            return Err(ReadError::Io(self.kind));
        }
        let taken = slice_to_vec(slice_subrange(self.data.as_slice(), 0, n));
        let tail = self.data.split_off(n);
        self.data = tail;
        proof {
            assert(taken@ =~= Self::read_result(old(self).model(), n as nat)->Ok_0);
            assert(self.data@ =~= Self::after_read(old(self).model(), n as nat).0);
        }
        Ok(taken)
    }
}

} // verus!
