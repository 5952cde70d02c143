//! The abstract sending capability.

use vstd::prelude::*;

verus! {

/// Anything that can send one typed message at a time.
///
/// `send_spec` is each implementation's own contract: it relates the state
/// before a send, the message, the result handed back, and the state after.
pub trait Sender<T>: Sized {
    /// The implementation's error type.
    type Error;

    /// The relation between the pre-state, the message, the result, and
    /// the post-state of one send.
    spec fn send_spec(&self, message: T, r: Result<(), Self::Error>, next: Self) -> bool;

    /// Send one message.
    fn send(&mut self, message: T) -> (r: Result<(), Self::Error>)
        ensures
            old(self).send_spec(message, r, *final(self)),
    ;
}

} // verus!
