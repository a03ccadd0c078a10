//! Racing two match operations against each other.
//!
//! [`select_either`] polls the first operation, then the second, and yields
//! whichever resolves first — paired with the loser, still in flight and
//! still usable, so no operation and no stream is ever lost.

use vstd::prelude::*;
use crate::error::AsyncError;
use crate::io::Async;
use crate::matcher::{Matcher, MatchFuture, MatchOutcome};

verus! {

/// Which of two raced operations resolved first; the other rides along.
pub enum SelectOutcome<X, Y> {
    /// The first operation resolved.
    First(X),
    /// The second operation resolved.
    Second(Y),
}

/// A future which polls two operations and yields whichever resolves first.
///
/// This is created by [`select_either`].
pub struct SelectEither<A, B> {
    state: Option<(A, B)>,
}

/// Creates a future racing `a` against `b`: `a` is polled first each round.
pub fn select_either<A, B>(a: A, b: B) -> (r: SelectEither<A, B>)
    ensures
        !r.done(),
        r.first() == a,
        r.second() == b,
{
    SelectEither { state: Some((a, b)) }
}

impl<A, B> SelectEither<A, B> {
    /// The race has already delivered its outcome.
    pub closed spec fn done(&self) -> bool {
        self.state is None
    }

    /// The first operation, while the race is in flight.
    pub closed spec fn first(&self) -> A {
        self.state->Some_0.0
    }

    /// The second operation, while the race is in flight.
    pub closed spec fn second(&self) -> B {
        self.state->Some_0.1
    }

    /// Drives the race by one step: one poll of each operation, stopping at
    /// the first that resolves.  The loser is handed back alive: it has not
    /// resolved, and everything it may still produce it could already have
    /// produced at the start.
    pub fn poll<M1: Matcher, M2: Matcher>(&mut self) -> (r: Result<
        Async<SelectOutcome<((M1, A::Value), B), (A, (M2, B::Value))>>,
        SelectOutcome<(AsyncError<M1, M1::Error>, B), (A, AsyncError<M2, M2::Error>)>,
    >) where A: MatchFuture<M1>, B: MatchFuture<M2>
        requires
            !old(self).done(),
            !old(self).first().done(),
            old(self).first().wf(),
            !old(self).second().done(),
            old(self).second().wf(),
        ensures
            match r {
                Ok(Async::Ready(SelectOutcome::First(((m, v), b2)))) => {
                    &&& final(self).done()
                    &&& old(self).first().admits(MatchOutcome::Matched(m, v))
                    &&& b2 == old(self).second()
                },
                Ok(Async::Ready(SelectOutcome::Second((a2, (m, v))))) => {
                    &&& final(self).done()
                    &&& old(self).second().admits(MatchOutcome::Matched(m, v))
                    &&& !a2.done()
                    &&& a2.wf()
                    &&& forall|o: MatchOutcome<M1, A::Value, M1::Error>|
                        a2.admits(o) ==> old(self).first().admits(o)
                },
                Ok(Async::NotReady) => {
                    &&& !final(self).done()
                    &&& !old(self).first().ready()
                    &&& !old(self).second().ready()
                    &&& !final(self).first().done()
                    &&& final(self).first().wf()
                    &&& forall|o: MatchOutcome<M1, A::Value, M1::Error>|
                        final(self).first().admits(o) ==> old(self).first().admits(o)
                    &&& !final(self).second().done()
                    &&& final(self).second().wf()
                    &&& forall|o: MatchOutcome<M2, B::Value, M2::Error>|
                        final(self).second().admits(o) ==> old(self).second().admits(o)
                },
                Err(SelectOutcome::First((e, b2))) => {
                    &&& final(self).done()
                    &&& old(self).first().admits(
                        MatchOutcome::Failed(e.spec_state(), e.spec_error()),
                    )
                    &&& b2 == old(self).second()
                },
                Err(SelectOutcome::Second((a2, e))) => {
                    &&& final(self).done()
                    &&& old(self).second().admits(
                        MatchOutcome::Failed(e.spec_state(), e.spec_error()),
                    )
                    &&& !a2.done()
                    &&& a2.wf()
                    &&& forall|o: MatchOutcome<M1, A::Value, M1::Error>|
                        a2.admits(o) ==> old(self).first().admits(o)
                },
            },
    {
        let (mut a, mut b) = match self.state.take() {
            Some(p) => p,
            None => vstd::pervasive::unreached(),
        };
        match a.poll() {
            Ok(Async::Ready((m, v))) => {
                return Ok(Async::Ready(SelectOutcome::First(((m, v), b))));
            },
            Err(e) => {
                return Err(SelectOutcome::First((e, b)));
            },
            Ok(Async::NotReady) => {},
        }
        match b.poll() {
            Ok(Async::Ready((m, v))) => {
                return Ok(Async::Ready(SelectOutcome::Second((a, (m, v)))));
            },
            Err(e) => {
                return Err(SelectOutcome::Second((a, e)));
            },
            Ok(Async::NotReady) => {},
        }
        self.state = Some((a, b));
        Ok(Async::NotReady)
    }
}

} // verus!
