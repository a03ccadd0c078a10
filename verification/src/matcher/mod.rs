//! Pattern matcher interface and its generic implementations.
//!
//! A [`Matcher`] is the stateful object patterns are matched against — for
//! byte I/O it wraps a stream.  Binding a pattern to a matcher through
//! [`AsyncMatch`](async_match::AsyncMatch) yields a [`MatchFuture`]: a
//! suspendable state machine whose every poll either suspends, or resolves to
//! `(matcher, value)`, or fails with `(matcher, error)` — the matcher is
//! handed back to the caller in both outcomes.

use vstd::prelude::*;
use crate::error::AsyncError;
use crate::io::Async;

pub mod async_match;
pub mod match_tuple;

verus! {

/// A pattern matcher.
///
/// Each matcher has an intrinsic error type, and a spec-level notion of
/// whether it can ever report "would block".
pub trait Matcher: Sized {
    /// The error type that may occur when matching using this matcher.
    type Error;

    /// Whether this matcher's underlying stream never reports "would block".
    spec fn always_ready(&self) -> bool;
}

/// A final outcome of driving a match operation to completion: the matcher
/// is part of the outcome in both cases.
pub enum MatchOutcome<M, T, E> {
    /// The operation resolved to a value.
    Matched(M, T),
    /// The operation failed; the error is paired with the matcher.
    Failed(M, E),
}

/// A suspendable match operation produced by binding a pattern to a matcher.
///
/// `admits` is the set of final outcomes the operation may still resolve to;
/// polling only ever shrinks it, and the outcome actually delivered was
/// admitted at the time of the poll.  Driving an operation again after it
/// has delivered its final outcome is a caller bug, excluded by `poll`'s
/// precondition; the implementations panic on it.
pub trait MatchFuture<M: Matcher> {
    /// The value this operation resolves to.
    type Value;

    /// The operation has already delivered its final outcome.
    spec fn done(&self) -> bool;

    /// Internal invariant, established at bind time and kept by every poll.
    spec fn wf(&self) -> bool;

    /// Whether the matcher owned by this operation never blocks.
    spec fn ready(&self) -> bool;

    /// The final outcomes this operation may still resolve to.
    spec fn admits(&self, o: MatchOutcome<M, Self::Value, M::Error>) -> bool;

    /// Drives the operation by one step.
    fn poll(&mut self) -> (r: Result<Async<(M, Self::Value)>, AsyncError<M, M::Error>>)
        requires
            !old(self).done(),
            old(self).wf(),
        ensures
            match r {
                Ok(Async::Ready((m, v))) => {
                    &&& final(self).done()
                    &&& old(self).admits(MatchOutcome::Matched(m, v))
                    &&& m.always_ready() == old(self).ready()
                },
                Ok(Async::NotReady) => {
                    &&& !final(self).done()
                    &&& final(self).wf()
                    &&& !old(self).ready()
                    &&& final(self).ready() == old(self).ready()
                    &&& forall|o: MatchOutcome<M, Self::Value, M::Error>|
                        final(self).admits(o) ==> old(self).admits(o)
                },
                Err(e) => {
                    &&& final(self).done()
                    &&& old(self).admits(
                        MatchOutcome::Failed(e.spec_state(), e.spec_error()),
                    )
                    &&& e.spec_state().always_ready() == old(self).ready()
                },
            },
    ;
}

/// The phase of a two-step state machine, with an explicit "already
/// completed" sentinel: driving an operation past its final result is a
/// caller bug, and the operations panic on the sentinel.
pub enum Phase<A, B> {
    /// The first phase.
    A(A),
    /// The second phase.
    B(B),
    /// The operation has delivered its final outcome.
    Done,
}

impl<A, B> Phase<A, B> {
    /// Takes the current phase out, leaving the sentinel.
    pub fn take(&mut self) -> (r: Self)
        ensures
            r == *old(self),
            *final(self) is Done,
    {
        let mut tmp = Phase::Done;
        core::mem::swap(self, &mut tmp);
        tmp
    }
}

} // verus!
