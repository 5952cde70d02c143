//! Decision logic of the parallel dispatcher.
//!
//! The parallel dispatcher runs one accepting thread and a fixed pool of
//! workers, coordinated by two queues: a rendezvous handoff queue carrying
//! one connection at a time from the accepting thread to a free worker, and
//! a result queue, bounded by the pool size, by which any worker publishes
//! a stop verdict.  The threads and queues themselves are plumbing that the
//! embedding program supplies; what each thread decides at each step is the
//! logic here.
//!
//! The accepting thread loops: it polls the result queue; on a published
//! value it exits with that value as the dispatch result, otherwise it
//! accepts one connection and hands it off, and an accept failure ends the
//! whole dispatch with that error.  A worker runs the handler on each
//! connection it is handed and publishes the payload of a `Stop` verdict;
//! it never exits on its own — closing the handoff queue when the accepting
//! thread exits is what lets the workers drain and the pool join.  The
//! first published stop wins; handlers already in flight finish naturally
//! and are never cancelled.

use vstd::prelude::*;

use crate::serving::Serving;

verus! {

/// What the accepting thread observed at the top of one loop iteration.
#[derive(Debug, PartialEq, Eq)]
pub enum AcceptEvent<C, T, E> {
    /// A worker had published this stop value on the result queue.
    StopSeen(T),
    /// No stop was published, and the source accepted this connection.
    Accepted(C),
    /// No stop was published, and the source failed to accept.
    AcceptFailed(E),
}

/// What the accepting thread must do next.
#[derive(Debug, PartialEq, Eq)]
pub enum AcceptAction<C, T, E> {
    /// Hand this connection to a free worker, then loop.
    Handoff(C),
    /// Exit the accept loop: this is the dispatch result.
    Finish(Result<T, E>),
}

/// The accepting thread's decision for one loop iteration: a published
/// stop value is the dispatch result and ends accepting at once; an
/// accepted connection is handed off; an accept failure ends the dispatch
/// with that error, never retried.
pub fn accept_step<C, T, E>(event: AcceptEvent<C, T, E>) -> (r: AcceptAction<C, T, E>)
    ensures
        match event {
            AcceptEvent::StopSeen(t) => r == AcceptAction::<C, T, E>::Finish(Ok::<T, E>(t)),
            AcceptEvent::Accepted(c) => r == AcceptAction::<C, T, E>::Handoff(c),
            AcceptEvent::AcceptFailed(e) => r == AcceptAction::<C, T, E>::Finish(Err::<T, E>(e)),
        },
{
    match event {
        AcceptEvent::StopSeen(t) => AcceptAction::Finish(Ok(t)),
        AcceptEvent::Accepted(c) => AcceptAction::Handoff(c),
        AcceptEvent::AcceptFailed(e) => AcceptAction::Finish(Err(e)),
    }
}

/// A worker's decision after one handler invocation: the payload of a
/// `Stop` verdict is published on the result queue, a `Continue` verdict
/// publishes nothing; either way the worker keeps pulling connections.
pub fn worker_report<T>(outcome: Serving<T>) -> (r: Option<T>)
    ensures
        match outcome {
            Serving::Stop(t) => r == Some(t),
            Serving::Continue => r is None,
        },
{
    match outcome {
        Serving::Stop(t) => Some(t),
        Serving::Continue => None,
    }
}

/// An abstract snapshot of the dispatcher's shared state: the result
/// queue, the rendezvous handoff slot, the worker pool, and the accepting
/// thread's status.  Connections and the pool's thread identities are
/// abstracted away; what remains is the coordination that the two queues
/// carry.
pub struct ParModel<T, E> {
    /// Stop values published on the result queue and not yet consumed,
    /// oldest first.
    pub published: Seq<T>,
    /// Workers waiting for a connection.
    pub idle: nat,
    /// Workers currently running the handler.
    pub busy: nat,
    /// Whether a connection sits in the rendezvous slot, accepted but not
    /// yet taken by a worker.
    pub handoff_full: bool,
    /// Whether the accepting thread is still in its loop.
    pub accepting: bool,
    /// The dispatch result, once the accepting thread has exited.
    pub outcome: Option<Result<T, E>>,
}

/// One atomic step of the coordination, from the point of view of the
/// shared state.
pub enum ParStep<T, E> {
    /// The accepting thread polled the result queue and found a published
    /// value: it consumes the oldest one and exits with it.
    PollHit,
    /// The accepting thread polled the result queue empty, accepted a
    /// connection, and completed the rendezvous handoff.
    PollAccept,
    /// The accepting thread polled the result queue empty and the accept
    /// failed: it exits with the error.
    PollFail(E),
    /// An idle worker took the handed-off connection and began serving it.
    Take,
    /// A busy worker's handler returned this verdict; a stop's payload is
    /// published on the result queue.
    Finish(Serving<T>),
}

/// The dispatcher's shared state before anything has happened.
pub open spec fn par_init<T, E>(pool_size: nat) -> ParModel<T, E> {
    ParModel {
        published: Seq::empty(),
        idle: pool_size,
        busy: 0,
        handoff_full: false,
        accepting: true,
        outcome: None,
    }
}

/// Whether a step can happen in a state.  The accepting thread acts only
/// while accepting and never while a handoff is still pending (the
/// rendezvous send returns only once a worker has taken the connection);
/// it accepts only after polling the result queue empty.
pub open spec fn par_enabled<T, E>(m: ParModel<T, E>, step: ParStep<T, E>) -> bool {
    match step {
        ParStep::PollHit => m.accepting && !m.handoff_full && m.published.len() > 0,
        ParStep::PollAccept => m.accepting && !m.handoff_full && m.published.len() == 0,
        ParStep::PollFail(_) => m.accepting && !m.handoff_full && m.published.len() == 0,
        ParStep::Take => m.handoff_full && m.idle > 0,
        ParStep::Finish(_) => m.busy > 0,
    }
}

/// The state after a step.
pub open spec fn par_next<T, E>(m: ParModel<T, E>, step: ParStep<T, E>) -> ParModel<T, E> {
    match step {
        ParStep::PollHit => ParModel {
            accepting: false,
            outcome: Some(Ok(m.published[0])),
            published: m.published.drop_first(),
            ..m
        },
        ParStep::PollAccept => ParModel { handoff_full: true, ..m },
        ParStep::PollFail(e) => ParModel { accepting: false, outcome: Some(Err(e)), ..m },
        ParStep::Take => ParModel {
            handoff_full: false,
            idle: (m.idle - 1) as nat,
            busy: m.busy + 1,
            ..m
        },
        ParStep::Finish(verdict) => ParModel {
            busy: (m.busy - 1) as nat,
            idle: m.idle + 1,
            published: match verdict {
                Serving::Stop(t) => m.published.push(t),
                Serving::Continue => m.published,
            },
            ..m
        },
    }
}

/// The coordination invariant: the pool neither gains nor loses workers,
/// the result queue, the running handlers and the handoff slot together
/// never hold more than one value per worker plus the one rendezvous
/// connection, and a result exists exactly once the accepting thread has
/// exited.
pub open spec fn par_inv<T, E>(m: ParModel<T, E>, pool_size: nat) -> bool {
    &&& m.idle + m.busy == pool_size
    &&& m.published.len() + m.busy + (if m.handoff_full {
        1int
    } else {
        0int
    }) <= pool_size + 1
    &&& (m.outcome is Some <==> !m.accepting)
}

/// The initial state satisfies the coordination invariant.
pub proof fn lemma_par_init_inv<T, E>(pool_size: nat)
    ensures
        par_inv(par_init::<T, E>(pool_size), pool_size),
{
}

/// Every enabled step preserves the coordination invariant.
pub proof fn lemma_par_step_inv<T, E>(m: ParModel<T, E>, step: ParStep<T, E>, pool_size: nat)
    requires
        par_inv(m, pool_size),
        par_enabled(m, step),
    ensures
        par_inv(par_next(m, step), pool_size),
{
}

/// A publishing worker finds room: while any handler is still running,
/// the result queue holds at most `pool_size` values — the queue's
/// capacity — so a worker that stops can publish.
pub proof fn lemma_publish_room<T, E>(m: ParModel<T, E>, pool_size: nat)
    requires
        par_inv(m, pool_size),
        m.busy > 0,
    ensures
        m.published.len() <= pool_size,
{
}

/// First stop wins, promptly: once a stop value is published, the
/// accepting thread can neither hand off another connection nor end the
/// dispatch with an accept error; its next poll consumes the oldest
/// published value and exits with it as the dispatch result.
pub proof fn lemma_stop_ends_accepting<T, E>(m: ParModel<T, E>)
    requires
        m.published.len() > 0,
    ensures
        !par_enabled(m, ParStep::<T, E>::PollAccept),
        forall|e: E| !par_enabled(m, ParStep::<T, E>::PollFail(e)),
        m.accepting && !m.handoff_full ==> par_enabled(m, ParStep::<T, E>::PollHit)
            && par_next(m, ParStep::<T, E>::PollHit).outcome == Some(Ok::<T, E>(m.published[0]))
            && !par_next(m, ParStep::<T, E>::PollHit).accepting,
{
}

} // verus!
