//! A small point-to-point message-passing layer.
//!
//! Values travel over a byte stream as length-prefixed frames: an 8-byte
//! little-endian length followed by exactly that many payload bytes.  The
//! framing codec ([`generic::Sender`] and [`generic::Receiver`]) stages each
//! payload in a reusable scratch buffer that is restored to its configured
//! size after every operation.  On top of the codec, a connection-dispatch
//! layer turns a stream of accepted connections into repeated invocations of
//! a user handler, either sequentially ([`serve`]) or — with the thread
//! plumbing supplied by the embedding program — across a bounded worker pool
//! driven by the decision functions in [`par`].

mod doubles;
mod error;
mod frame;
pub mod generic;
pub mod par;
mod payload;
mod receiver;
mod sender;
mod server;
mod serving;
mod stream;

pub use doubles::{spec_inc, CountingHandler, ScriptedReceiver, ScriptedServer};
pub use error::{CodecError, ReadError};
pub use frame::{encode_frame, lemma_frame_length_prefix, spec_frame};
pub use payload::Payload;
pub use receiver::{AsIter as ReceiverAsIter, AsIter, Receiver};
pub use sender::Sender;
pub use server::{
    dispatch_continues, dispatch_round, dispatch_rounds, dispatch_stops, lemma_serve_outcome_unique, serve, serve_outcome,
    Handler, Server,
};
pub use serving::Serving;
pub use stream::{ByteSink, ByteSource, FaultySink, FaultySource, MemSink, MemSource};
