//! The connection source and the sequential dispatcher.
//!
//! A [`Server`] yields a stream of accepted connections, each a pair of a
//! sending half and a receiving half.  [`serve`] drives one: it invokes a
//! [`Handler`] once per accepted connection until the handler signals
//! [`Serving::Stop`] or the server fails to accept, and never retries a
//! failed accept.

use vstd::prelude::*;

use crate::serving::Serving;

verus! {

/// A source of connections: it can identify itself and accept a stream of
/// (sender, receiver) pairs, one per connection.
///
/// `accept_result` and `after_accept` are each implementation's own model
/// of what one accept yields and how it advances the server's state.
pub trait Server: Sized {
    /// The sending half of one accepted connection.
    type Sender;

    /// The receiving half of one accepted connection.
    type Receiver;

    /// The implementation's error type.
    type Error;

    /// What the next accept yields in this state.
    spec fn accept_result(&self) -> Result<(Self::Sender, Self::Receiver), Self::Error>;

    /// The state after the next accept.
    spec fn after_accept(&self) -> Self;

    /// A human-readable identifier of this endpoint.  Side-effect-free.
    fn ident(&self) -> String;

    /// Block until a new connection is available or a fatal error occurs.
    fn accept(&mut self) -> (r: Result<(Self::Sender, Self::Receiver), Self::Error>)
        ensures
            r == old(self).accept_result(),
            *final(self) == old(self).after_accept(),
    ;
}

/// The per-connection callback of a dispatcher: it owns the full lifetime
/// of one connection and returns a verdict.
///
/// `handle_result` and `after_handle` are each implementation's own model
/// of the verdict and of how one invocation advances the handler's state.
pub trait Handler<Tx, Rx, T>: Sized {
    /// The verdict of invoking the handler on this connection in this state.
    spec fn handle_result(&self, tx: Tx, rx: Rx) -> Serving<T>;

    /// The state after invoking the handler on this connection.
    spec fn after_handle(&self, tx: Tx, rx: Rx) -> Self;

    /// Serve one connection and give the verdict.
    fn handle(&mut self, tx: Tx, rx: Rx) -> (r: Serving<T>)
        ensures
            r == old(self).handle_result(tx, rx),
            *final(self) == old(self).after_handle(tx, rx),
    ;
}

/// Whether, in this state, the next accept succeeds and the handler lets
/// dispatch continue.
pub open spec fn dispatch_continues<Srv: Server, T, H: Handler<Srv::Sender, Srv::Receiver, T>>(
    s: Srv,
    h: H,
) -> bool {
    match s.accept_result() {
        Ok(conn) => h.handle_result(conn.0, conn.1) matches Serving::Continue,
        Err(_) => false,
    }
}

/// The server and handler states after one full dispatch round (one accept
/// and, if it succeeded, one handler invocation).
pub open spec fn dispatch_round<Srv: Server, T, H: Handler<Srv::Sender, Srv::Receiver, T>>(
    s: Srv,
    h: H,
) -> (Srv, H) {
    match s.accept_result() {
        Ok(conn) => (s.after_accept(), h.after_handle(conn.0, conn.1)),
        Err(_) => (s.after_accept(), h),
    }
}

/// The server and handler states after `n` full dispatch rounds.
pub open spec fn dispatch_rounds<Srv: Server, T, H: Handler<Srv::Sender, Srv::Receiver, T>>(
    s: Srv,
    h: H,
    n: nat,
) -> (Srv, H)
    decreases n,
{
    if n == 0 {
        (s, h)
    } else {
        let prev = dispatch_rounds(s, h, (n - 1) as nat);
        dispatch_round::<Srv, T, H>(prev.0, prev.1)
    }
}

/// The full behaviour of one [`serve`] call that returned after `n`
/// continue-rounds: every earlier round accepted and continued, and at
/// round `n` either the accept failed — its error is returned, the handler
/// untouched — or the handler stopped, and the payload of that first stop
/// is returned.  In both cases the failing or stopping accept is the last:
/// no further accept is attempted.
pub open spec fn serve_outcome<Srv: Server, T, H: Handler<Srv::Sender, Srv::Receiver, T>>(
    s0: Srv,
    h0: H,
    n: nat,
    s1: Srv,
    h1: H,
    r: Result<T, Srv::Error>,
) -> bool {
    &&& (forall|m: nat|
        #![trigger dispatch_rounds(s0, h0, m)]
        m < n ==> dispatch_continues::<Srv, T, H>(
            dispatch_rounds(s0, h0, m).0,
            dispatch_rounds(s0, h0, m).1,
        ))
    &&& ({
        let sn = dispatch_rounds(s0, h0, n).0;
        let hn = dispatch_rounds(s0, h0, n).1;
        match sn.accept_result() {
            Err(e) => r == Err::<T, Srv::Error>(e) && s1 == sn.after_accept() && h1 == hn,
            Ok(conn) => {
                &&& hn.handle_result(conn.0, conn.1) matches Serving::Stop(t)
                &&& r == Ok::<T, Srv::Error>(t)
                &&& s1 == sn.after_accept()
                &&& h1 == hn.after_handle(conn.0, conn.1)
            },
        }
    })
}

/// The dispatch outcome is unique: any two outcomes of the same server and
/// handler agree on the terminating round, on the final states, and on the
/// result.  The round at which [`serve`] returns is the first that does
/// not continue, so the first `Stop` verdict (or the first accept failure)
/// fully determines what `serve` returns.
pub proof fn lemma_serve_outcome_unique<Srv: Server, T, H: Handler<Srv::Sender, Srv::Receiver, T>>(
    s0: Srv,
    h0: H,
    n1: nat,
    s1: Srv,
    h1: H,
    r1: Result<T, Srv::Error>,
    n2: nat,
    s2: Srv,
    h2: H,
    r2: Result<T, Srv::Error>,
)
    requires
        serve_outcome(s0, h0, n1, s1, h1, r1),
        serve_outcome(s0, h0, n2, s2, h2, r2),
    ensures
        n1 == n2,
        s1 == s2,
        h1 == h2,
        r1 == r2,
{
    if n1 < n2 {
        assert(dispatch_continues::<Srv, T, H>(
            dispatch_rounds(s0, h0, n1).0,
            dispatch_rounds(s0, h0, n1).1,
        ));
    }
    if n2 < n1 {
        assert(dispatch_continues::<Srv, T, H>(
            dispatch_rounds(s0, h0, n2).0,
            dispatch_rounds(s0, h0, n2).1,
        ));
    }
}

/// Whether dispatch from this server and handler state ever reaches a
/// round that does not continue: an accept failure or a `Stop` verdict.
///
/// Dispatch over a source that accepts forever under a handler that never
/// stops would run forever; this is the premise under which a [`serve`]
/// call returns at all.
pub open spec fn dispatch_stops<Srv: Server, T, H: Handler<Srv::Sender, Srv::Receiver, T>>(
    s: Srv,
    h: H,
) -> bool {
    exists|n: nat|
        !dispatch_continues::<Srv, T, H>(
            #[trigger] dispatch_rounds(s, h, n).0,
            dispatch_rounds(s, h, n).1,
        )
}

/// Drive a server: accept connections and invoke the handler once per
/// connection, until the handler stops dispatch or an accept fails.
///
/// The first `Stop` verdict wins and its payload is returned; an accept
/// failure is returned as is, and is never retried.  Either way no accept
/// is attempted after the terminating round.
#[verifier::loop_isolation(false)]
pub fn serve<Srv: Server, T, H: Handler<Srv::Sender, Srv::Receiver, T>>(
    server: &mut Srv,
    handler: &mut H,
) -> (r: Result<T, Srv::Error>)
    requires
        dispatch_stops::<Srv, T, H>(*old(server), *old(handler)),
    ensures
        exists|n: nat|
            serve_outcome(*old(server), *old(handler), n, *final(server), *final(handler), r),
{
    let ghost s0 = *server;
    let ghost h0 = *handler;
    let ghost nstop = choose|n: nat|
        !dispatch_continues::<Srv, T, H>(
            #[trigger] dispatch_rounds(s0, h0, n).0,
            dispatch_rounds(s0, h0, n).1,
        );
    let ghost mut rounds: nat = 0;
    loop
        invariant
            rounds <= nstop,
            !dispatch_continues::<Srv, T, H>(
                dispatch_rounds(s0, h0, nstop).0,
                dispatch_rounds(s0, h0, nstop).1,
            ),
            dispatch_rounds(s0, h0, rounds) == (*server, *handler),
            forall|m: nat|
                #![trigger dispatch_rounds(s0, h0, m)]
                m < rounds ==> dispatch_continues::<Srv, T, H>(
                    dispatch_rounds(s0, h0, m).0,
                    dispatch_rounds(s0, h0, m).1,
                ),
        decreases nstop - rounds,
    {
        let conn = match server.accept() {
            Ok(c) => c,
            Err(e) => {
                proof {
                    assert(serve_outcome(s0, h0, rounds, *server, *handler, Err::<T, Srv::Error>(e)));
                }
                return Err(e);
            },
        };
        match handler.handle(conn.0, conn.1) {
            Serving::Stop(t) => {
                proof {
                    assert(serve_outcome(s0, h0, rounds, *server, *handler, Ok::<T, Srv::Error>(t)));
                }
                return Ok(t);
            },
            Serving::Continue => {
                proof {
                    assert(rounds < nstop) by {
                        assert(dispatch_continues::<Srv, T, H>(
                            dispatch_rounds(s0, h0, rounds).0,
                            dispatch_rounds(s0, h0, rounds).1,
                        ));
                    }
                    rounds = rounds + 1;
                    assert(dispatch_rounds(s0, h0, rounds) == (*server, *handler));
                }
            },
        }
    }
}

} // verus!
