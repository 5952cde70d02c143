//! Tests of the framing codec: sending and receiving framed payloads over
//! in-memory streams, cross-checked against an independent serializer.

use std::convert::TryInto as _;
use std::fmt::Debug;

use ipchannel::generic::{Receiver, Sender};
use ipchannel::{encode_frame, CodecError, FaultySink, FaultySource, MemSink, MemSource};
use ipchannel::{Receiver as _, Sender as _};

/// The frame must carry its payload length as its first 8 bytes, little
/// endian, and the payload must deserialize with an independent codec.
fn check_buf<T>(buf: &[u8], target: T)
where
    T: serde::de::DeserializeOwned + PartialEq + Debug,
{
    assert_eq!(
        (buf.len() - 8) as u64,
        u64::from_le_bytes(buf[..8].try_into().unwrap()),
    );
    assert_eq!(bincode::deserialize::<T>(&buf[8..]).unwrap(), target);
}

/// A frame carrying the independent codec's encoding of `target`.
fn gen_buf<T>(target: T) -> Vec<u8>
where
    T: serde::Serialize,
{
    encode_frame(&bincode::serialize(&target).unwrap())
}

#[test]
fn test_send_string() {
    let mut sender: Sender<MemSink, String> = Sender::new(MemSink::new(), 16);
    sender.send("foobar".to_string()).unwrap();
    check_buf(sender.sink_ref().contents(), "foobar".to_string());
}

#[test]
fn test_receive_string() {
    let buf = gen_buf("foobar".to_string());
    let mut receiver: Receiver<MemSource, String> = Receiver::new(MemSource::new(buf), 16);
    assert_eq!(receiver.receive().unwrap(), "foobar".to_string());
}

#[test]
fn test_buf_size() {
    let mut sender: Sender<MemSink, String> = Sender::new(MemSink::new(), 16);
    let payload = "a very long string, totally longer than 16 bytes, I promise".to_string();

    assert_eq!(sender.buf_capacity(), 16);
    sender.send(payload.clone()).unwrap();
    assert_eq!(sender.buf_capacity(), 16);
    check_buf(sender.sink_ref().contents(), payload);
}

#[test]
fn test_round_trip_string() {
    let mut sender: Sender<MemSink, String> = Sender::new(MemSink::new(), 8);
    sender.send("hello there".to_string()).unwrap();
    let bytes = sender.sink_ref().contents().clone();
    let mut receiver: Receiver<MemSource, String> = Receiver::new(MemSource::new(bytes), 8);
    assert_eq!(receiver.receive().unwrap(), "hello there".to_string());
}

#[test]
fn test_round_trip_empty_string() {
    let mut sender: Sender<MemSink, String> = Sender::new(MemSink::new(), 16);
    sender.send(String::new()).unwrap();
    // the frame holds the payload's own 8-byte length word, here zero
    assert_eq!(sender.sink_ref().contents().len(), 16);
    let bytes = sender.sink_ref().contents().clone();
    let mut receiver: Receiver<MemSource, String> = Receiver::new(MemSource::new(bytes), 16);
    assert_eq!(receiver.receive().unwrap(), String::new());
}

#[test]
fn test_zero_buf_size() {
    let mut sender: Sender<MemSink, String> = Sender::new(MemSink::new(), 0);
    assert_eq!(sender.buf_capacity(), 0);
    sender.send("still works".to_string()).unwrap();
    assert_eq!(sender.buf_capacity(), 0);
    let bytes = sender.sink_ref().contents().clone();
    let mut receiver: Receiver<MemSource, String> = Receiver::new(MemSource::new(bytes), 0);
    assert_eq!(receiver.receive().unwrap(), "still works".to_string());
    assert_eq!(receiver.buf_capacity(), 0);
}

#[test]
fn test_round_trip_u32() {
    let mut sender: Sender<MemSink, u32> = Sender::new(MemSink::new(), 4);
    sender.send(0xdead_beef_u32).unwrap();
    let bytes = sender.sink_ref().contents().clone();
    assert_eq!(bytes, vec![4, 0, 0, 0, 0, 0, 0, 0, 0xef, 0xbe, 0xad, 0xde]);
    let mut receiver: Receiver<MemSource, u32> = Receiver::new(MemSource::new(bytes), 4);
    assert_eq!(receiver.receive().unwrap(), 0xdead_beef_u32);
}

#[test]
fn test_encode_frame_exact() {
    assert_eq!(
        encode_frame(&[97, 98, 99]),
        vec![3, 0, 0, 0, 0, 0, 0, 0, 97, 98, 99],
    );
    assert_eq!(encode_frame(&[]), vec![0, 0, 0, 0, 0, 0, 0, 0]);
}

#[test]
fn test_receive_eof_in_length_phase() {
    let mut receiver: Receiver<MemSource, String> =
        Receiver::new(MemSource::new(vec![1, 2, 3]), 16);
    assert_eq!(receiver.receive().unwrap_err(), CodecError::Eof);
}

#[test]
fn test_receive_eof_in_payload_phase() {
    // a frame that claims 5 payload bytes but carries only 2
    let mut buf = 5u64.to_le_bytes().to_vec();
    buf.extend_from_slice(&[10, 20]);
    let mut receiver: Receiver<MemSource, String> = Receiver::new(MemSource::new(buf), 16);
    assert_eq!(receiver.receive().unwrap_err(), CodecError::Eof);
}

#[test]
fn test_receive_preserves_fault_kind_in_length_phase() {
    let mut receiver: Receiver<FaultySource, String> =
        Receiver::new(FaultySource::new(Vec::new(), 7), 16);
    assert_eq!(receiver.receive().unwrap_err(), CodecError::Io(7));
}

#[test]
fn test_receive_preserves_fault_kind_in_payload_phase() {
    // the header arrives, the payload read dies with the same kind
    let header = 5u64.to_le_bytes().to_vec();
    let mut receiver: Receiver<FaultySource, String> =
        Receiver::new(FaultySource::new(header, 7), 16);
    assert_eq!(receiver.receive().unwrap_err(), CodecError::Io(7));
}

#[test]
fn test_receive_decode_error() {
    // a well-formed frame whose payload is no encoding of a string: its
    // inner length word claims more bytes than follow
    let payload = 99u64.to_le_bytes().to_vec();
    let frame = encode_frame(&payload);
    let mut receiver: Receiver<MemSource, String> = Receiver::new(MemSource::new(frame), 16);
    assert_eq!(receiver.receive().unwrap_err(), CodecError::Decode);
}

#[test]
fn test_receive_decode_error_bad_utf8() {
    let payload = {
        let mut p = 2u64.to_le_bytes().to_vec();
        p.extend_from_slice(&[0xff, 0xfe]);
        p
    };
    let frame = encode_frame(&payload);
    let mut receiver: Receiver<MemSource, String> = Receiver::new(MemSource::new(frame), 16);
    assert_eq!(receiver.receive().unwrap_err(), CodecError::Decode);
}

#[test]
fn test_send_preserves_fault_kind_on_write() {
    let mut sender: Sender<FaultySink, String> =
        Sender::new(FaultySink::new(Some(3), None), 16);
    assert_eq!(
        sender.send("foobar foobar foobar foobar".to_string()).unwrap_err(),
        CodecError::Io(3),
    );
    assert_eq!(sender.buf_capacity(), 16);
}

#[test]
fn test_send_preserves_fault_kind_on_flush() {
    let mut sender: Sender<FaultySink, String> =
        Sender::new(FaultySink::new(None, Some(11)), 16);
    assert_eq!(
        sender.send("foobar".to_string()).unwrap_err(),
        CodecError::Io(11),
    );
    assert_eq!(sender.buf_capacity(), 16);
}
