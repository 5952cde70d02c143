//! Tests of the iteration adapter, the sequential dispatcher, and the
//! parallel dispatcher's decision functions.

use ipchannel::par::{accept_step, worker_report, AcceptAction, AcceptEvent};
use ipchannel::{
    serve, AsIter, CodecError, CountingHandler, Payload, ScriptedReceiver, ScriptedServer, Serving,
};

#[test]
fn test_as_iter() {
    let r = ScriptedReceiver::new(0, 5, "exhausted");
    let mut iter = AsIter::as_iter(r);
    assert_eq!(iter.last_error(), None);
    let res = {
        let mut v: Vec<i32> = Vec::new();
        while let Some(x) = iter.next() {
            v.push(x);
        }
        v
    };
    assert_eq!(&res, &[1, 2, 3, 4]);
    assert_eq!(iter.last_error(), Some(&"exhausted"));
}

#[test]
fn test_as_iter_stays_terminated() {
    let r = ScriptedReceiver::new(0, 1, "done");
    let mut iter = AsIter::as_iter(r);
    assert_eq!(iter.next(), None);
    // terminated for good: later pulls yield nothing and keep the error
    assert_eq!(iter.next(), None);
    assert_eq!(iter.next(), None);
    assert_eq!(iter.last_error(), Some(&"done"));
}

#[test]
fn test_serve() {
    let mut server = ScriptedServer::new(0, -1, ());
    let mut handler = CountingHandler::new(5, "enough");
    assert_eq!(serve(&mut server, &mut handler), Ok("enough"));
    assert_eq!(handler.calls_made(), 5);
    assert!(handler.saw_in_order());
    // the stopping round's accept was the last: five accepts in all
    assert_eq!(server.accepts(), 5);
}

#[test]
fn test_serve_accept_error() {
    let mut server = ScriptedServer::new(0, 5, ());
    let mut handler = CountingHandler::new(6, "enough");
    assert_eq!(serve(&mut server, &mut handler), Err(()));
    assert_eq!(handler.calls_made(), 4);
    assert!(handler.saw_in_order());
    assert_eq!(server.accepts(), 5);
}

#[test]
fn test_accept_step() {
    assert_eq!(
        accept_step::<u8, i32, ()>(AcceptEvent::StopSeen(42)),
        AcceptAction::Finish(Ok(42)),
    );
    assert_eq!(
        accept_step::<u8, i32, ()>(AcceptEvent::Accepted(9)),
        AcceptAction::Handoff(9),
    );
    assert_eq!(
        accept_step::<u8, i32, ()>(AcceptEvent::AcceptFailed(())),
        AcceptAction::Finish(Err(())),
    );
}

#[test]
fn test_worker_report() {
    assert_eq!(worker_report(Serving::Stop("enough")), Some("enough"));
    assert_eq!(worker_report(Serving::<&str>::Continue), None);
}

#[test]
fn test_payload_decode_rejects_short_input() {
    assert_eq!(<u32 as Payload>::decode(&[1, 2, 3]), None);
    assert_eq!(<String as Payload>::decode(&[0, 0, 0]), None);
}

#[test]
fn test_codec_error_describe() {
    assert_eq!(CodecError::Eof.describe(), "end of stream");
    assert_eq!(CodecError::Io(1).describe(), "stream failure");
    assert_eq!(CodecError::Encode.describe(), "value could not be encoded");
    assert_eq!(
        CodecError::Decode.describe(),
        "payload bytes could not be decoded"
    );
}
