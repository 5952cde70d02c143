//! The abstract receiving capability, and the iteration adapter over it.

use vstd::prelude::*;

verus! {

/// Anything that can receive one typed message at a time.
///
/// `recv_spec` is each implementation's own contract: it relates the state
/// before a receive, the result handed back, and the state after.
pub trait Receiver<T>: Sized {
    /// The implementation's error type.
    type Error;

    /// The relation between the pre-state, the result, and the post-state
    /// of one receive.
    spec fn recv_spec(&self, r: Result<T, Self::Error>, next: Self) -> bool;

    /// Receive one message.
    fn receive(&mut self) -> (r: Result<T, Self::Error>)
        ensures
            old(self).recv_spec(r, *final(self)),
    ;

}

/// A pull-based sequence over a receiver: each pull receives one value.
///
/// The first failure terminates the sequence for good: the triggering error
/// is retained for inspection, no further receive is attempted, and every
/// later pull yields nothing.
pub struct AsIter<R: Receiver<T>, T> {
    inner: R,
    last_error: Option<R::Error>,
}

impl<R: Receiver<T>, T> AsIter<R, T> {
    /// Wrap a receiver in a fresh, unterminated sequence.
    pub fn as_iter(inner: R) -> (r: AsIter<R, T>)
        ensures
            r.inner() == inner,
            r.spec_last_error() is None,
    {
        AsIter { inner, last_error: None }
    }

    /// The wrapped receiver.
    pub closed spec fn inner(&self) -> R {
        self.inner
    }

    /// The error that terminated the sequence, if it has terminated.
    pub closed spec fn spec_last_error(&self) -> Option<R::Error> {
        self.last_error
    }

    /// The error that terminated the sequence, if it has terminated.
    pub fn last_error(&self) -> (r: Option<&R::Error>)
        ensures
            match r {
                Some(e) => self.spec_last_error() == Some(*e),
                None => self.spec_last_error() is None,
            },
    {
        self.last_error.as_ref()
    }

    /// Pull the next value: one receive on the wrapped receiver, unless the
    /// sequence has already terminated.
    ///
    /// Yields the received value on success.  On failure it yields nothing,
    /// records the error, and — once terminated — never touches the
    /// receiver again.
    pub fn next(&mut self) -> (r: Option<T>)
        ensures
            old(self).spec_last_error() is Some ==> r is None && *final(self) == *old(self),
            old(self).spec_last_error() is None ==> match r {
                Some(t) => old(self).inner().recv_spec(Ok(t), final(self).inner())
                    && final(self).spec_last_error() is None,
                None => final(self).spec_last_error() matches Some(e) && old(self).inner().recv_spec(
                    Err(e),
                    final(self).inner(),
                ),
            },
    {
        if self.last_error.is_some() {
            return None;
        }
        match self.inner.receive() {
            Ok(t) => Some(t),
            Err(e) => {
                self.last_error = Some(e);
                None
            },
        }
    }
}

} // verus!
