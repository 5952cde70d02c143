//! The verdict a handler gives after serving one connection.

use vstd::prelude::*;

verus! {

/// What a handler decided after one invocation: keep dispatching, or stop
/// the whole dispatch loop and hand a final value back to its caller.
#[derive(Debug, Clone, Copy, PartialEq, Eq, Structural)]
pub enum Serving<T> {
    /// Keep accepting connections.
    Continue,
    /// Terminate dispatch, carrying the final value.
    Stop(T),
}

impl<T> Serving<T> {
    /// Whether this verdict terminates dispatch.
    pub open spec fn is_stop(self) -> bool {
        self matches Serving::Stop(_)
    }
}

} // verus!
