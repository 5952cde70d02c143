//! Scripted implementations of the capability traits.
//!
//! These are verified stand-ins for a real connection source or receiver:
//! they follow a fixed script — count up, fail at a chosen point — and are
//! what the dispatch and iteration contracts can be exercised against
//! without any I/O.

use vstd::prelude::*;

use crate::receiver::Receiver;
use crate::server::{Handler, Server};
use crate::serving::Serving;

verus! {

/// The successor of a counter, wrapping at the end of its range.
pub open spec fn spec_inc(x: i32) -> i32 {
    if x == i32::MAX {
        i32::MIN
    } else {
        (x + 1) as i32
    }
}

fn inc(x: i32) -> (r: i32)
    ensures
        r == spec_inc(x),
{
    if x == i32::MAX {
        i32::MIN
    } else {
        x + 1
    }
}

/// A receiver that yields 1, 2, 3, … and fails with a fixed error when the
/// counter reaches a chosen value.
pub struct ScriptedReceiver<E> {
    /// The number of receives so far.
    pub count: i32,
    /// The counter value at which receives fail.
    pub fail_at: i32,
    /// The error yielded once the counter reaches `fail_at`.
    pub fault: E,
}

impl<E: Copy> ScriptedReceiver<E> {
    /// A receiver counting up from `count`, failing with `fault` when the
    /// counter reaches `fail_at`.
    pub fn new(count: i32, fail_at: i32, fault: E) -> (r: Self)
        ensures
            r.count == count,
            r.fail_at == fail_at,
            r.fault == fault,
    {
        ScriptedReceiver { count, fail_at, fault }
    }
}

impl<E: Copy> Receiver<i32> for ScriptedReceiver<E> {
    type Error = E;

    /// One receive advances the counter; it yields the new counter value,
    /// or the scripted fault when the counter reaches `fail_at`.
    open spec fn recv_spec(&self, r: Result<i32, E>, next: Self) -> bool {
        let cur = spec_inc(self.count);
        &&& next.count == cur
        &&& next.fail_at == self.fail_at
        &&& next.fault == self.fault
        &&& r == if cur == self.fail_at {
            Err::<i32, E>(self.fault)
        } else {
            Ok::<i32, E>(cur)
        }
    }

    fn receive(&mut self) -> (r: Result<i32, E>) {
        let cur = inc(self.count);
        self.count = cur;
        if cur == self.fail_at {
            Err(self.fault)
        } else {
            Ok(cur)
        }
    }
}

/// A connection source that yields connections numbered 1, 2, 3, … and
/// fails with a fixed error when the counter reaches a chosen value.
///
/// Each yielded connection is the pair of its number, standing in for a
/// real (sender, receiver) pair.
pub struct ScriptedServer<E> {
    /// The number of accepts so far.
    pub count: i32,
    /// The counter value at which accepts fail.
    pub fail_at: i32,
    /// The error yielded once the counter reaches `fail_at`.
    pub fault: E,
}

impl<E: Copy> ScriptedServer<E> {
    /// A source counting up from `count`, failing with `fault` when the
    /// counter reaches `fail_at`.
    pub fn new(count: i32, fail_at: i32, fault: E) -> (r: Self)
        ensures
            r.count == count,
            r.fail_at == fail_at,
            r.fault == fault,
    {
        ScriptedServer { count, fail_at, fault }
    }

    /// The number of accepts this source has answered.
    pub fn accepts(&self) -> (r: i32)
        ensures
            r == self.count,
    {
        self.count
    }
}

impl<E: Copy> Server for ScriptedServer<E> {
    type Sender = i32;

    type Receiver = i32;

    type Error = E;

    open spec fn accept_result(&self) -> Result<(i32, i32), E> {
        let cur = spec_inc(self.count);
        if cur == self.fail_at {
            Err(self.fault)
        } else {
            Ok((cur, cur))
        }
    }

    open spec fn after_accept(&self) -> Self {
        ScriptedServer { count: spec_inc(self.count), fail_at: self.fail_at, fault: self.fault }
    }

    fn ident(&self) -> String {
        "scripted".to_owned()
    }

    fn accept(&mut self) -> (r: Result<(i32, i32), E>) {
        let cur = inc(self.count);
        self.count = cur;
        if cur == self.fail_at {
            Err(self.fault)
        } else {
            Ok((cur, cur))
        }
    }
}

/// A handler that counts its invocations, stops with a fixed payload on a
/// chosen one, and checks that connections arrive in acceptance order.
pub struct CountingHandler<T> {
    /// The number of invocations so far.
    pub calls: i32,
    /// The invocation on which the handler stops dispatch.
    pub stop_at: i32,
    /// The payload carried by the stop verdict.
    pub payload: T,
    /// Whether every connection seen so far was numbered like the call
    /// that received it.
    pub in_order: bool,
}

impl<T: Copy> CountingHandler<T> {
    /// A handler that stops with `payload` on invocation `stop_at`.
    pub fn new(stop_at: i32, payload: T) -> (r: Self)
        ensures
            r.calls == 0,
            r.stop_at == stop_at,
            r.payload == payload,
            r.in_order,
    {
        CountingHandler { calls: 0, stop_at, payload, in_order: true }
    }

    /// The number of invocations so far.
    pub fn calls_made(&self) -> (r: i32)
        ensures
            r == self.calls,
    {
        self.calls
    }

    /// Whether every connection seen arrived in acceptance order.
    pub fn saw_in_order(&self) -> (r: bool)
        ensures
            r == self.in_order,
    {
        self.in_order
    }
}

impl<T: Copy> Handler<i32, i32, T> for CountingHandler<T> {
    /// The verdict counts invocations: `Stop` with the fixed payload on
    /// invocation `stop_at`, `Continue` on every other.
    open spec fn handle_result(&self, tx: i32, rx: i32) -> Serving<T> {
        if spec_inc(self.calls) == self.stop_at {
            Serving::Stop(self.payload)
        } else {
            Serving::Continue
        }
    }

    open spec fn after_handle(&self, tx: i32, rx: i32) -> Self {
        CountingHandler {
            calls: spec_inc(self.calls),
            stop_at: self.stop_at,
            payload: self.payload,
            in_order: self.in_order && tx == spec_inc(self.calls) && rx == spec_inc(
                self.calls,
            ),
        }
    }

    fn handle(&mut self, tx: i32, rx: i32) -> (r: Serving<T>) {
        let cur = inc(self.calls);
        self.in_order = self.in_order && tx == cur && rx == cur;
        self.calls = cur;
        if cur == self.stop_at {
            Serving::Stop(self.payload)
        } else {
            Serving::Continue
        }
    }
}

} // verus!
