//! Match operations for the tuple patterns of three to ten elements.
//!
//! A tuple pattern matches its sub-patterns strictly in sequence: each one
//! is bound only after the previous one has handed the matcher back.  The
//! operations decompose into the pair machinery of
//! [`MatchChain`](super::async_match::MatchChain) plus a final flattening of
//! the nested pair value.

use vstd::prelude::*;
use crate::error::AsyncError;
use crate::io::Async;
use crate::matcher::async_match::{chain_failed, chain_matched, AsyncMatch, MatchChain};
use crate::matcher::{Matcher, MatchFuture, MatchOutcome};
use crate::pattern::Pattern;

verus! {

impl<P0: Pattern, P1: Pattern, P2: Pattern> Pattern for (P0, P1, P2) {
    type Value = (P0::Value, P1::Value, P2::Value);
}

/// Future to do pattern matching of the 3-element tuple pattern: the
/// sub-patterns are matched strictly in sequence, threading the matcher.
pub struct MatchTuple3<M: Matcher, P0: AsyncMatch<M>, P1: AsyncMatch<M>, P2: AsyncMatch<M>> {
    inner: MatchChain<M, P0, (P1, P2)>,
}

impl<M: Matcher, P0: AsyncMatch<M>, P1: AsyncMatch<M>, P2: AsyncMatch<M>> MatchFuture<M> for MatchTuple3<M, P0, P1, P2> {
    type Value = (P0::Value, P1::Value, P2::Value);

    closed spec fn done(&self) -> bool {
        self.inner.done()
    }

    closed spec fn wf(&self) -> bool {
        self.inner.wf()
    }

    closed spec fn ready(&self) -> bool {
        self.inner.ready()
    }

    closed spec fn admits(&self, o: MatchOutcome<M, (P0::Value, P1::Value, P2::Value), M::Error>) -> bool {
        match o {
            MatchOutcome::Matched(m2, v) => self.inner.admits(
                MatchOutcome::Matched(m2, (v.0, (v.1, v.2))),
            ),
            MatchOutcome::Failed(m2, e) => self.inner.admits(MatchOutcome::Failed(m2, e)),
        }
    }

    fn poll(&mut self) -> (r: Result<Async<(M, (P0::Value, P1::Value, P2::Value))>, AsyncError<M, M::Error>>) {
        match self.inner.poll() {
            Ok(Async::Ready((m, vv))) => {
                let (v0, rest) = vv;
                Ok(Async::Ready((m, (v0, rest.0, rest.1))))
            },
            Ok(Async::NotReady) => {
                proof {
                    assert forall|o: MatchOutcome<M, (P0::Value, P1::Value, P2::Value), M::Error>| final(self).admits(o)
                        implies old(self).admits(o) by {
                        match o {
                            MatchOutcome::Matched(m2, v) => {
                                assert(final(self).inner.admits(
                                    MatchOutcome::Matched(m2, (v.0, (v.1, v.2))),
                                ));
                            },
                            MatchOutcome::Failed(m2, e) => {
                                assert(final(self).inner.admits(MatchOutcome::Failed(m2, e)));
                            },
                        }
                    }
                }
                Ok(Async::NotReady)
            },
            Err(e) => Err(e),
        }
    }
}

/// A tuple of 3 patterns is matched strictly in sequence.
impl<M: Matcher, P0: AsyncMatch<M>, P1: AsyncMatch<M>, P2: AsyncMatch<M>> AsyncMatch<M> for (P0, P1, P2) {
    type Future = MatchTuple3<M, P0, P1, P2>;

    open spec fn admits(self, m: M, o: MatchOutcome<M, (P0::Value, P1::Value, P2::Value), M::Error>) -> bool {
        match o {
            MatchOutcome::Matched(m2, v) => chain_matched::<M, P0, (P1, P2)>(
                self.0,
                (self.1, self.2),
                m,
                m2,
                (v.0, (v.1, v.2)),
            ),
            MatchOutcome::Failed(m2, e) => chain_failed::<M, P0, (P1, P2)>(
                self.0,
                (self.1, self.2),
                m,
                m2,
                e,
            ),
        }
    }

    open spec fn pre(self) -> bool {
        self.0.pre() && self.1.pre() && self.2.pre()
    }

    fn async_match(self, matcher: M) -> (f: Self::Future) {
        let (p0, p1, p2) = self;
        MatchTuple3 { inner: (p0, (p1, p2)).async_match(matcher) }
    }
}

impl<P0: Pattern, P1: Pattern, P2: Pattern, P3: Pattern> Pattern for (P0, P1, P2, P3) {
    type Value = (P0::Value, P1::Value, P2::Value, P3::Value);
}

/// Future to do pattern matching of the 4-element tuple pattern: the
/// sub-patterns are matched strictly in sequence, threading the matcher.
pub struct MatchTuple4<M: Matcher, P0: AsyncMatch<M>, P1: AsyncMatch<M>, P2: AsyncMatch<M>, P3: AsyncMatch<M>> {
    inner: MatchChain<M, P0, (P1, P2, P3)>,
}

impl<M: Matcher, P0: AsyncMatch<M>, P1: AsyncMatch<M>, P2: AsyncMatch<M>, P3: AsyncMatch<M>> MatchFuture<M> for MatchTuple4<M, P0, P1, P2, P3> {
    type Value = (P0::Value, P1::Value, P2::Value, P3::Value);

    closed spec fn done(&self) -> bool {
        self.inner.done()
    }

    closed spec fn wf(&self) -> bool {
        self.inner.wf()
    }

    closed spec fn ready(&self) -> bool {
        self.inner.ready()
    }

    closed spec fn admits(&self, o: MatchOutcome<M, (P0::Value, P1::Value, P2::Value, P3::Value), M::Error>) -> bool {
        match o {
            MatchOutcome::Matched(m2, v) => self.inner.admits(
                MatchOutcome::Matched(m2, (v.0, (v.1, v.2, v.3))),
            ),
            MatchOutcome::Failed(m2, e) => self.inner.admits(MatchOutcome::Failed(m2, e)),
        }
    }

    fn poll(&mut self) -> (r: Result<Async<(M, (P0::Value, P1::Value, P2::Value, P3::Value))>, AsyncError<M, M::Error>>) {
        match self.inner.poll() {
            Ok(Async::Ready((m, vv))) => {
                let (v0, rest) = vv;
                Ok(Async::Ready((m, (v0, rest.0, rest.1, rest.2))))
            },
            Ok(Async::NotReady) => {
                proof {
                    assert forall|o: MatchOutcome<M, (P0::Value, P1::Value, P2::Value, P3::Value), M::Error>| final(self).admits(o)
                        implies old(self).admits(o) by {
                        match o {
                            MatchOutcome::Matched(m2, v) => {
                                assert(final(self).inner.admits(
                                    MatchOutcome::Matched(m2, (v.0, (v.1, v.2, v.3))),
                                ));
                            },
                            MatchOutcome::Failed(m2, e) => {
                                assert(final(self).inner.admits(MatchOutcome::Failed(m2, e)));
                            },
                        }
                    }
                }
                Ok(Async::NotReady)
            },
            Err(e) => Err(e),
        }
    }
}

/// A tuple of 4 patterns is matched strictly in sequence.
impl<M: Matcher, P0: AsyncMatch<M>, P1: AsyncMatch<M>, P2: AsyncMatch<M>, P3: AsyncMatch<M>> AsyncMatch<M> for (P0, P1, P2, P3) {
    type Future = MatchTuple4<M, P0, P1, P2, P3>;

    open spec fn admits(self, m: M, o: MatchOutcome<M, (P0::Value, P1::Value, P2::Value, P3::Value), M::Error>) -> bool {
        match o {
            MatchOutcome::Matched(m2, v) => chain_matched::<M, P0, (P1, P2, P3)>(
                self.0,
                (self.1, self.2, self.3),
                m,
                m2,
                (v.0, (v.1, v.2, v.3)),
            ),
            MatchOutcome::Failed(m2, e) => chain_failed::<M, P0, (P1, P2, P3)>(
                self.0,
                (self.1, self.2, self.3),
                m,
                m2,
                e,
            ),
        }
    }

    open spec fn pre(self) -> bool {
        self.0.pre() && self.1.pre() && self.2.pre() && self.3.pre()
    }

    fn async_match(self, matcher: M) -> (f: Self::Future) {
        let (p0, p1, p2, p3) = self;
        MatchTuple4 { inner: (p0, (p1, p2, p3)).async_match(matcher) }
    }
}

impl<P0: Pattern, P1: Pattern, P2: Pattern, P3: Pattern, P4: Pattern> Pattern for (P0, P1, P2, P3, P4) {
    type Value = (P0::Value, P1::Value, P2::Value, P3::Value, P4::Value);
}

/// Future to do pattern matching of the 5-element tuple pattern: the
/// sub-patterns are matched strictly in sequence, threading the matcher.
pub struct MatchTuple5<M: Matcher, P0: AsyncMatch<M>, P1: AsyncMatch<M>, P2: AsyncMatch<M>, P3: AsyncMatch<M>, P4: AsyncMatch<M>> {
    inner: MatchChain<M, P0, (P1, P2, P3, P4)>,
}

impl<M: Matcher, P0: AsyncMatch<M>, P1: AsyncMatch<M>, P2: AsyncMatch<M>, P3: AsyncMatch<M>, P4: AsyncMatch<M>> MatchFuture<M> for MatchTuple5<M, P0, P1, P2, P3, P4> {
    type Value = (P0::Value, P1::Value, P2::Value, P3::Value, P4::Value);

    closed spec fn done(&self) -> bool {
        self.inner.done()
    }

    closed spec fn wf(&self) -> bool {
        self.inner.wf()
    }

    closed spec fn ready(&self) -> bool {
        self.inner.ready()
    }

    closed spec fn admits(&self, o: MatchOutcome<M, (P0::Value, P1::Value, P2::Value, P3::Value, P4::Value), M::Error>) -> bool {
        match o {
            MatchOutcome::Matched(m2, v) => self.inner.admits(
                MatchOutcome::Matched(m2, (v.0, (v.1, v.2, v.3, v.4))),
            ),
            MatchOutcome::Failed(m2, e) => self.inner.admits(MatchOutcome::Failed(m2, e)),
        }
    }

    fn poll(&mut self) -> (r: Result<Async<(M, (P0::Value, P1::Value, P2::Value, P3::Value, P4::Value))>, AsyncError<M, M::Error>>) {
        match self.inner.poll() {
            Ok(Async::Ready((m, vv))) => {
                let (v0, rest) = vv;
                Ok(Async::Ready((m, (v0, rest.0, rest.1, rest.2, rest.3))))
            },
            Ok(Async::NotReady) => {
                proof {
                    assert forall|o: MatchOutcome<M, (P0::Value, P1::Value, P2::Value, P3::Value, P4::Value), M::Error>| final(self).admits(o)
                        implies old(self).admits(o) by {
                        match o {
                            MatchOutcome::Matched(m2, v) => {
                                assert(final(self).inner.admits(
                                    MatchOutcome::Matched(m2, (v.0, (v.1, v.2, v.3, v.4))),
                                ));
                            },
                            MatchOutcome::Failed(m2, e) => {
                                assert(final(self).inner.admits(MatchOutcome::Failed(m2, e)));
                            },
                        }
                    }
                }
                Ok(Async::NotReady)
            },
            Err(e) => Err(e),
        }
    }
}

/// A tuple of 5 patterns is matched strictly in sequence.
impl<M: Matcher, P0: AsyncMatch<M>, P1: AsyncMatch<M>, P2: AsyncMatch<M>, P3: AsyncMatch<M>, P4: AsyncMatch<M>> AsyncMatch<M> for (P0, P1, P2, P3, P4) {
    type Future = MatchTuple5<M, P0, P1, P2, P3, P4>;

    open spec fn admits(self, m: M, o: MatchOutcome<M, (P0::Value, P1::Value, P2::Value, P3::Value, P4::Value), M::Error>) -> bool {
        match o {
            MatchOutcome::Matched(m2, v) => chain_matched::<M, P0, (P1, P2, P3, P4)>(
                self.0,
                (self.1, self.2, self.3, self.4),
                m,
                m2,
                (v.0, (v.1, v.2, v.3, v.4)),
            ),
            MatchOutcome::Failed(m2, e) => chain_failed::<M, P0, (P1, P2, P3, P4)>(
                self.0,
                (self.1, self.2, self.3, self.4),
                m,
                m2,
                e,
            ),
        }
    }

    open spec fn pre(self) -> bool {
        self.0.pre() && self.1.pre() && self.2.pre() && self.3.pre() && self.4.pre()
    }

    fn async_match(self, matcher: M) -> (f: Self::Future) {
        let (p0, p1, p2, p3, p4) = self;
        MatchTuple5 { inner: (p0, (p1, p2, p3, p4)).async_match(matcher) }
    }
}

impl<P0: Pattern, P1: Pattern, P2: Pattern, P3: Pattern, P4: Pattern, P5: Pattern> Pattern for (P0, P1, P2, P3, P4, P5) {
    type Value = (P0::Value, P1::Value, P2::Value, P3::Value, P4::Value, P5::Value);
}

/// Future to do pattern matching of the 6-element tuple pattern: the
/// sub-patterns are matched strictly in sequence, threading the matcher.
pub struct MatchTuple6<M: Matcher, P0: AsyncMatch<M>, P1: AsyncMatch<M>, P2: AsyncMatch<M>, P3: AsyncMatch<M>, P4: AsyncMatch<M>, P5: AsyncMatch<M>> {
    inner: MatchChain<M, P0, (P1, P2, P3, P4, P5)>,
}

impl<M: Matcher, P0: AsyncMatch<M>, P1: AsyncMatch<M>, P2: AsyncMatch<M>, P3: AsyncMatch<M>, P4: AsyncMatch<M>, P5: AsyncMatch<M>> MatchFuture<M> for MatchTuple6<M, P0, P1, P2, P3, P4, P5> {
    type Value = (P0::Value, P1::Value, P2::Value, P3::Value, P4::Value, P5::Value);

    closed spec fn done(&self) -> bool {
        self.inner.done()
    }

    closed spec fn wf(&self) -> bool {
        self.inner.wf()
    }

    closed spec fn ready(&self) -> bool {
        self.inner.ready()
    }

    closed spec fn admits(&self, o: MatchOutcome<M, (P0::Value, P1::Value, P2::Value, P3::Value, P4::Value, P5::Value), M::Error>) -> bool {
        match o {
            MatchOutcome::Matched(m2, v) => self.inner.admits(
                MatchOutcome::Matched(m2, (v.0, (v.1, v.2, v.3, v.4, v.5))),
            ),
            MatchOutcome::Failed(m2, e) => self.inner.admits(MatchOutcome::Failed(m2, e)),
        }
    }

    fn poll(&mut self) -> (r: Result<Async<(M, (P0::Value, P1::Value, P2::Value, P3::Value, P4::Value, P5::Value))>, AsyncError<M, M::Error>>) {
        match self.inner.poll() {
            Ok(Async::Ready((m, vv))) => {
                let (v0, rest) = vv;
                Ok(Async::Ready((m, (v0, rest.0, rest.1, rest.2, rest.3, rest.4))))
            },
            Ok(Async::NotReady) => {
                proof {
                    assert forall|o: MatchOutcome<M, (P0::Value, P1::Value, P2::Value, P3::Value, P4::Value, P5::Value), M::Error>| final(self).admits(o)
                        implies old(self).admits(o) by {
                        match o {
                            MatchOutcome::Matched(m2, v) => {
                                assert(final(self).inner.admits(
                                    MatchOutcome::Matched(m2, (v.0, (v.1, v.2, v.3, v.4, v.5))),
                                ));
                            },
                            MatchOutcome::Failed(m2, e) => {
                                assert(final(self).inner.admits(MatchOutcome::Failed(m2, e)));
                            },
                        }
                    }
                }
                Ok(Async::NotReady)
            },
            Err(e) => Err(e),
        }
    }
}

/// A tuple of 6 patterns is matched strictly in sequence.
impl<M: Matcher, P0: AsyncMatch<M>, P1: AsyncMatch<M>, P2: AsyncMatch<M>, P3: AsyncMatch<M>, P4: AsyncMatch<M>, P5: AsyncMatch<M>> AsyncMatch<M> for (P0, P1, P2, P3, P4, P5) {
    type Future = MatchTuple6<M, P0, P1, P2, P3, P4, P5>;

    open spec fn admits(self, m: M, o: MatchOutcome<M, (P0::Value, P1::Value, P2::Value, P3::Value, P4::Value, P5::Value), M::Error>) -> bool {
        match o {
            MatchOutcome::Matched(m2, v) => chain_matched::<M, P0, (P1, P2, P3, P4, P5)>(
                self.0,
                (self.1, self.2, self.3, self.4, self.5),
                m,
                m2,
                (v.0, (v.1, v.2, v.3, v.4, v.5)),
            ),
            MatchOutcome::Failed(m2, e) => chain_failed::<M, P0, (P1, P2, P3, P4, P5)>(
                self.0,
                (self.1, self.2, self.3, self.4, self.5),
                m,
                m2,
                e,
            ),
        }
    }

    open spec fn pre(self) -> bool {
        self.0.pre() && self.1.pre() && self.2.pre() && self.3.pre() && self.4.pre() && self.5.pre()
    }

    fn async_match(self, matcher: M) -> (f: Self::Future) {
        let (p0, p1, p2, p3, p4, p5) = self;
        MatchTuple6 { inner: (p0, (p1, p2, p3, p4, p5)).async_match(matcher) }
    }
}

impl<P0: Pattern, P1: Pattern, P2: Pattern, P3: Pattern, P4: Pattern, P5: Pattern, P6: Pattern> Pattern for (P0, P1, P2, P3, P4, P5, P6) {
    type Value = (P0::Value, P1::Value, P2::Value, P3::Value, P4::Value, P5::Value, P6::Value);
}

/// Future to do pattern matching of the 7-element tuple pattern: the
/// sub-patterns are matched strictly in sequence, threading the matcher.
pub struct MatchTuple7<M: Matcher, P0: AsyncMatch<M>, P1: AsyncMatch<M>, P2: AsyncMatch<M>, P3: AsyncMatch<M>, P4: AsyncMatch<M>, P5: AsyncMatch<M>, P6: AsyncMatch<M>> {
    inner: MatchChain<M, P0, (P1, P2, P3, P4, P5, P6)>,
}

impl<M: Matcher, P0: AsyncMatch<M>, P1: AsyncMatch<M>, P2: AsyncMatch<M>, P3: AsyncMatch<M>, P4: AsyncMatch<M>, P5: AsyncMatch<M>, P6: AsyncMatch<M>> MatchFuture<M> for MatchTuple7<M, P0, P1, P2, P3, P4, P5, P6> {
    type Value = (P0::Value, P1::Value, P2::Value, P3::Value, P4::Value, P5::Value, P6::Value);

    closed spec fn done(&self) -> bool {
        self.inner.done()
    }

    closed spec fn wf(&self) -> bool {
        self.inner.wf()
    }

    closed spec fn ready(&self) -> bool {
        self.inner.ready()
    }

    closed spec fn admits(&self, o: MatchOutcome<M, (P0::Value, P1::Value, P2::Value, P3::Value, P4::Value, P5::Value, P6::Value), M::Error>) -> bool {
        match o {
            MatchOutcome::Matched(m2, v) => self.inner.admits(
                MatchOutcome::Matched(m2, (v.0, (v.1, v.2, v.3, v.4, v.5, v.6))),
            ),
            MatchOutcome::Failed(m2, e) => self.inner.admits(MatchOutcome::Failed(m2, e)),
        }
    }

    fn poll(&mut self) -> (r: Result<Async<(M, (P0::Value, P1::Value, P2::Value, P3::Value, P4::Value, P5::Value, P6::Value))>, AsyncError<M, M::Error>>) {
        match self.inner.poll() {
            Ok(Async::Ready((m, vv))) => {
                let (v0, rest) = vv;
                Ok(Async::Ready((m, (v0, rest.0, rest.1, rest.2, rest.3, rest.4, rest.5))))
            },
            Ok(Async::NotReady) => {
                proof {
                    assert forall|o: MatchOutcome<M, (P0::Value, P1::Value, P2::Value, P3::Value, P4::Value, P5::Value, P6::Value), M::Error>| final(self).admits(o)
                        implies old(self).admits(o) by {
                        match o {
                            MatchOutcome::Matched(m2, v) => {
                                assert(final(self).inner.admits(
                                    MatchOutcome::Matched(m2, (v.0, (v.1, v.2, v.3, v.4, v.5, v.6))),
                                ));
                            },
                            MatchOutcome::Failed(m2, e) => {
                                assert(final(self).inner.admits(MatchOutcome::Failed(m2, e)));
                            },
                        }
                    }
                }
                Ok(Async::NotReady)
            },
            Err(e) => Err(e),
        }
    }
}

/// A tuple of 7 patterns is matched strictly in sequence.
impl<M: Matcher, P0: AsyncMatch<M>, P1: AsyncMatch<M>, P2: AsyncMatch<M>, P3: AsyncMatch<M>, P4: AsyncMatch<M>, P5: AsyncMatch<M>, P6: AsyncMatch<M>> AsyncMatch<M> for (P0, P1, P2, P3, P4, P5, P6) {
    type Future = MatchTuple7<M, P0, P1, P2, P3, P4, P5, P6>;

    open spec fn admits(self, m: M, o: MatchOutcome<M, (P0::Value, P1::Value, P2::Value, P3::Value, P4::Value, P5::Value, P6::Value), M::Error>) -> bool {
        match o {
            MatchOutcome::Matched(m2, v) => chain_matched::<M, P0, (P1, P2, P3, P4, P5, P6)>(
                self.0,
                (self.1, self.2, self.3, self.4, self.5, self.6),
                m,
                m2,
                (v.0, (v.1, v.2, v.3, v.4, v.5, v.6)),
            ),
            MatchOutcome::Failed(m2, e) => chain_failed::<M, P0, (P1, P2, P3, P4, P5, P6)>(
                self.0,
                (self.1, self.2, self.3, self.4, self.5, self.6),
                m,
                m2,
                e,
            ),
        }
    }

    open spec fn pre(self) -> bool {
        self.0.pre() && self.1.pre() && self.2.pre() && self.3.pre() && self.4.pre() && self.5.pre() && self.6.pre()
    }

    fn async_match(self, matcher: M) -> (f: Self::Future) {
        let (p0, p1, p2, p3, p4, p5, p6) = self;
        MatchTuple7 { inner: (p0, (p1, p2, p3, p4, p5, p6)).async_match(matcher) }
    }
}

impl<P0: Pattern, P1: Pattern, P2: Pattern, P3: Pattern, P4: Pattern, P5: Pattern, P6: Pattern, P7: Pattern> Pattern for (P0, P1, P2, P3, P4, P5, P6, P7) {
    type Value = (P0::Value, P1::Value, P2::Value, P3::Value, P4::Value, P5::Value, P6::Value, P7::Value);
}

/// Future to do pattern matching of the 8-element tuple pattern: the
/// sub-patterns are matched strictly in sequence, threading the matcher.
pub struct MatchTuple8<M: Matcher, P0: AsyncMatch<M>, P1: AsyncMatch<M>, P2: AsyncMatch<M>, P3: AsyncMatch<M>, P4: AsyncMatch<M>, P5: AsyncMatch<M>, P6: AsyncMatch<M>, P7: AsyncMatch<M>> {
    inner: MatchChain<M, P0, (P1, P2, P3, P4, P5, P6, P7)>,
}

impl<M: Matcher, P0: AsyncMatch<M>, P1: AsyncMatch<M>, P2: AsyncMatch<M>, P3: AsyncMatch<M>, P4: AsyncMatch<M>, P5: AsyncMatch<M>, P6: AsyncMatch<M>, P7: AsyncMatch<M>> MatchFuture<M> for MatchTuple8<M, P0, P1, P2, P3, P4, P5, P6, P7> {
    type Value = (P0::Value, P1::Value, P2::Value, P3::Value, P4::Value, P5::Value, P6::Value, P7::Value);

    closed spec fn done(&self) -> bool {
        self.inner.done()
    }

    closed spec fn wf(&self) -> bool {
        self.inner.wf()
    }

    closed spec fn ready(&self) -> bool {
        self.inner.ready()
    }

    closed spec fn admits(&self, o: MatchOutcome<M, (P0::Value, P1::Value, P2::Value, P3::Value, P4::Value, P5::Value, P6::Value, P7::Value), M::Error>) -> bool {
        match o {
            MatchOutcome::Matched(m2, v) => self.inner.admits(
                MatchOutcome::Matched(m2, (v.0, (v.1, v.2, v.3, v.4, v.5, v.6, v.7))),
            ),
            MatchOutcome::Failed(m2, e) => self.inner.admits(MatchOutcome::Failed(m2, e)),
        }
    }

    fn poll(&mut self) -> (r: Result<Async<(M, (P0::Value, P1::Value, P2::Value, P3::Value, P4::Value, P5::Value, P6::Value, P7::Value))>, AsyncError<M, M::Error>>) {
        match self.inner.poll() {
            Ok(Async::Ready((m, vv))) => {
                let (v0, rest) = vv;
                Ok(Async::Ready((m, (v0, rest.0, rest.1, rest.2, rest.3, rest.4, rest.5, rest.6))))
            },
            Ok(Async::NotReady) => {
                proof {
                    assert forall|o: MatchOutcome<M, (P0::Value, P1::Value, P2::Value, P3::Value, P4::Value, P5::Value, P6::Value, P7::Value), M::Error>| final(self).admits(o)
                        implies old(self).admits(o) by {
                        match o {
                            MatchOutcome::Matched(m2, v) => {
                                assert(final(self).inner.admits(
                                    MatchOutcome::Matched(m2, (v.0, (v.1, v.2, v.3, v.4, v.5, v.6, v.7))),
                                ));
                            },
                            MatchOutcome::Failed(m2, e) => {
                                assert(final(self).inner.admits(MatchOutcome::Failed(m2, e)));
                            },
                        }
                    }
                }
                Ok(Async::NotReady)
            },
            Err(e) => Err(e),
        }
    }
}

/// A tuple of 8 patterns is matched strictly in sequence.
impl<M: Matcher, P0: AsyncMatch<M>, P1: AsyncMatch<M>, P2: AsyncMatch<M>, P3: AsyncMatch<M>, P4: AsyncMatch<M>, P5: AsyncMatch<M>, P6: AsyncMatch<M>, P7: AsyncMatch<M>> AsyncMatch<M> for (P0, P1, P2, P3, P4, P5, P6, P7) {
    type Future = MatchTuple8<M, P0, P1, P2, P3, P4, P5, P6, P7>;

    open spec fn admits(self, m: M, o: MatchOutcome<M, (P0::Value, P1::Value, P2::Value, P3::Value, P4::Value, P5::Value, P6::Value, P7::Value), M::Error>) -> bool {
        match o {
            MatchOutcome::Matched(m2, v) => chain_matched::<M, P0, (P1, P2, P3, P4, P5, P6, P7)>(
                self.0,
                (self.1, self.2, self.3, self.4, self.5, self.6, self.7),
                m,
                m2,
                (v.0, (v.1, v.2, v.3, v.4, v.5, v.6, v.7)),
            ),
            MatchOutcome::Failed(m2, e) => chain_failed::<M, P0, (P1, P2, P3, P4, P5, P6, P7)>(
                self.0,
                (self.1, self.2, self.3, self.4, self.5, self.6, self.7),
                m,
                m2,
                e,
            ),
        }
    }

    open spec fn pre(self) -> bool {
        self.0.pre() && self.1.pre() && self.2.pre() && self.3.pre() && self.4.pre() && self.5.pre() && self.6.pre() && self.7.pre()
    }

    fn async_match(self, matcher: M) -> (f: Self::Future) {
        let (p0, p1, p2, p3, p4, p5, p6, p7) = self;
        MatchTuple8 { inner: (p0, (p1, p2, p3, p4, p5, p6, p7)).async_match(matcher) }
    }
}

impl<P0: Pattern, P1: Pattern, P2: Pattern, P3: Pattern, P4: Pattern, P5: Pattern, P6: Pattern, P7: Pattern, P8: Pattern> Pattern for (P0, P1, P2, P3, P4, P5, P6, P7, P8) {
    type Value = (P0::Value, P1::Value, P2::Value, P3::Value, P4::Value, P5::Value, P6::Value, P7::Value, P8::Value);
}

/// Future to do pattern matching of the 9-element tuple pattern: the
/// sub-patterns are matched strictly in sequence, threading the matcher.
pub struct MatchTuple9<M: Matcher, P0: AsyncMatch<M>, P1: AsyncMatch<M>, P2: AsyncMatch<M>, P3: AsyncMatch<M>, P4: AsyncMatch<M>, P5: AsyncMatch<M>, P6: AsyncMatch<M>, P7: AsyncMatch<M>, P8: AsyncMatch<M>> {
    inner: MatchChain<M, P0, (P1, P2, P3, P4, P5, P6, P7, P8)>,
}

impl<M: Matcher, P0: AsyncMatch<M>, P1: AsyncMatch<M>, P2: AsyncMatch<M>, P3: AsyncMatch<M>, P4: AsyncMatch<M>, P5: AsyncMatch<M>, P6: AsyncMatch<M>, P7: AsyncMatch<M>, P8: AsyncMatch<M>> MatchFuture<M> for MatchTuple9<M, P0, P1, P2, P3, P4, P5, P6, P7, P8> {
    type Value = (P0::Value, P1::Value, P2::Value, P3::Value, P4::Value, P5::Value, P6::Value, P7::Value, P8::Value);

    closed spec fn done(&self) -> bool {
        self.inner.done()
    }

    closed spec fn wf(&self) -> bool {
        self.inner.wf()
    }

    closed spec fn ready(&self) -> bool {
        self.inner.ready()
    }

    closed spec fn admits(&self, o: MatchOutcome<M, (P0::Value, P1::Value, P2::Value, P3::Value, P4::Value, P5::Value, P6::Value, P7::Value, P8::Value), M::Error>) -> bool {
        match o {
            MatchOutcome::Matched(m2, v) => self.inner.admits(
                MatchOutcome::Matched(m2, (v.0, (v.1, v.2, v.3, v.4, v.5, v.6, v.7, v.8))),
            ),
            MatchOutcome::Failed(m2, e) => self.inner.admits(MatchOutcome::Failed(m2, e)),
        }
    }

    fn poll(&mut self) -> (r: Result<Async<(M, (P0::Value, P1::Value, P2::Value, P3::Value, P4::Value, P5::Value, P6::Value, P7::Value, P8::Value))>, AsyncError<M, M::Error>>) {
        match self.inner.poll() {
            Ok(Async::Ready((m, vv))) => {
                let (v0, rest) = vv;
                Ok(Async::Ready((m, (v0, rest.0, rest.1, rest.2, rest.3, rest.4, rest.5, rest.6, rest.7))))
            },
            Ok(Async::NotReady) => {
                proof {
                    assert forall|o: MatchOutcome<M, (P0::Value, P1::Value, P2::Value, P3::Value, P4::Value, P5::Value, P6::Value, P7::Value, P8::Value), M::Error>| final(self).admits(o)
                        implies old(self).admits(o) by {
                        match o {
                            MatchOutcome::Matched(m2, v) => {
                                assert(final(self).inner.admits(
                                    MatchOutcome::Matched(m2, (v.0, (v.1, v.2, v.3, v.4, v.5, v.6, v.7, v.8))),
                                ));
                            },
                            MatchOutcome::Failed(m2, e) => {
                                assert(final(self).inner.admits(MatchOutcome::Failed(m2, e)));
                            },
                        }
                    }
                }
                Ok(Async::NotReady)
            },
            Err(e) => Err(e),
        }
    }
}

/// A tuple of 9 patterns is matched strictly in sequence.
impl<M: Matcher, P0: AsyncMatch<M>, P1: AsyncMatch<M>, P2: AsyncMatch<M>, P3: AsyncMatch<M>, P4: AsyncMatch<M>, P5: AsyncMatch<M>, P6: AsyncMatch<M>, P7: AsyncMatch<M>, P8: AsyncMatch<M>> AsyncMatch<M> for (P0, P1, P2, P3, P4, P5, P6, P7, P8) {
    type Future = MatchTuple9<M, P0, P1, P2, P3, P4, P5, P6, P7, P8>;

    open spec fn admits(self, m: M, o: MatchOutcome<M, (P0::Value, P1::Value, P2::Value, P3::Value, P4::Value, P5::Value, P6::Value, P7::Value, P8::Value), M::Error>) -> bool {
        match o {
            MatchOutcome::Matched(m2, v) => chain_matched::<M, P0, (P1, P2, P3, P4, P5, P6, P7, P8)>(
                self.0,
                (self.1, self.2, self.3, self.4, self.5, self.6, self.7, self.8),
                m,
                m2,
                (v.0, (v.1, v.2, v.3, v.4, v.5, v.6, v.7, v.8)),
            ),
            MatchOutcome::Failed(m2, e) => chain_failed::<M, P0, (P1, P2, P3, P4, P5, P6, P7, P8)>(
                self.0,
                (self.1, self.2, self.3, self.4, self.5, self.6, self.7, self.8),
                m,
                m2,
                e,
            ),
        }
    }

    open spec fn pre(self) -> bool {
        self.0.pre() && self.1.pre() && self.2.pre() && self.3.pre() && self.4.pre() && self.5.pre() && self.6.pre() && self.7.pre() && self.8.pre()
    }

    fn async_match(self, matcher: M) -> (f: Self::Future) {
        let (p0, p1, p2, p3, p4, p5, p6, p7, p8) = self;
        MatchTuple9 { inner: (p0, (p1, p2, p3, p4, p5, p6, p7, p8)).async_match(matcher) }
    }
}

impl<P0: Pattern, P1: Pattern, P2: Pattern, P3: Pattern, P4: Pattern, P5: Pattern, P6: Pattern, P7: Pattern, P8: Pattern, P9: Pattern> Pattern for (P0, P1, P2, P3, P4, P5, P6, P7, P8, P9) {
    type Value = (P0::Value, P1::Value, P2::Value, P3::Value, P4::Value, P5::Value, P6::Value, P7::Value, P8::Value, P9::Value);
}

/// Future to do pattern matching of the 10-element tuple pattern: the
/// sub-patterns are matched strictly in sequence, threading the matcher.
pub struct MatchTuple10<M: Matcher, P0: AsyncMatch<M>, P1: AsyncMatch<M>, P2: AsyncMatch<M>, P3: AsyncMatch<M>, P4: AsyncMatch<M>, P5: AsyncMatch<M>, P6: AsyncMatch<M>, P7: AsyncMatch<M>, P8: AsyncMatch<M>, P9: AsyncMatch<M>> {
    inner: MatchChain<M, P0, (P1, P2, P3, P4, P5, P6, P7, P8, P9)>,
}

impl<M: Matcher, P0: AsyncMatch<M>, P1: AsyncMatch<M>, P2: AsyncMatch<M>, P3: AsyncMatch<M>, P4: AsyncMatch<M>, P5: AsyncMatch<M>, P6: AsyncMatch<M>, P7: AsyncMatch<M>, P8: AsyncMatch<M>, P9: AsyncMatch<M>> MatchFuture<M> for MatchTuple10<M, P0, P1, P2, P3, P4, P5, P6, P7, P8, P9> {
    type Value = (P0::Value, P1::Value, P2::Value, P3::Value, P4::Value, P5::Value, P6::Value, P7::Value, P8::Value, P9::Value);

    closed spec fn done(&self) -> bool {
        self.inner.done()
    }

    closed spec fn wf(&self) -> bool {
        self.inner.wf()
    }

    closed spec fn ready(&self) -> bool {
        self.inner.ready()
    }

    closed spec fn admits(&self, o: MatchOutcome<M, (P0::Value, P1::Value, P2::Value, P3::Value, P4::Value, P5::Value, P6::Value, P7::Value, P8::Value, P9::Value), M::Error>) -> bool {
        match o {
            MatchOutcome::Matched(m2, v) => self.inner.admits(
                MatchOutcome::Matched(m2, (v.0, (v.1, v.2, v.3, v.4, v.5, v.6, v.7, v.8, v.9))),
            ),
            MatchOutcome::Failed(m2, e) => self.inner.admits(MatchOutcome::Failed(m2, e)),
        }
    }

    fn poll(&mut self) -> (r: Result<Async<(M, (P0::Value, P1::Value, P2::Value, P3::Value, P4::Value, P5::Value, P6::Value, P7::Value, P8::Value, P9::Value))>, AsyncError<M, M::Error>>) {
        match self.inner.poll() {
            Ok(Async::Ready((m, vv))) => {
                let (v0, rest) = vv;
                Ok(Async::Ready((m, (v0, rest.0, rest.1, rest.2, rest.3, rest.4, rest.5, rest.6, rest.7, rest.8))))
            },
            Ok(Async::NotReady) => {
                proof {
                    assert forall|o: MatchOutcome<M, (P0::Value, P1::Value, P2::Value, P3::Value, P4::Value, P5::Value, P6::Value, P7::Value, P8::Value, P9::Value), M::Error>| final(self).admits(o)
                        implies old(self).admits(o) by {
                        match o {
                            MatchOutcome::Matched(m2, v) => {
                                assert(final(self).inner.admits(
                                    MatchOutcome::Matched(m2, (v.0, (v.1, v.2, v.3, v.4, v.5, v.6, v.7, v.8, v.9))),
                                ));
                            },
                            MatchOutcome::Failed(m2, e) => {
                                assert(final(self).inner.admits(MatchOutcome::Failed(m2, e)));
                            },
                        }
                    }
                }
                Ok(Async::NotReady)
            },
            Err(e) => Err(e),
        }
    }
}

/// A tuple of 10 patterns is matched strictly in sequence.
impl<M: Matcher, P0: AsyncMatch<M>, P1: AsyncMatch<M>, P2: AsyncMatch<M>, P3: AsyncMatch<M>, P4: AsyncMatch<M>, P5: AsyncMatch<M>, P6: AsyncMatch<M>, P7: AsyncMatch<M>, P8: AsyncMatch<M>, P9: AsyncMatch<M>> AsyncMatch<M> for (P0, P1, P2, P3, P4, P5, P6, P7, P8, P9) {
    type Future = MatchTuple10<M, P0, P1, P2, P3, P4, P5, P6, P7, P8, P9>;

    open spec fn admits(self, m: M, o: MatchOutcome<M, (P0::Value, P1::Value, P2::Value, P3::Value, P4::Value, P5::Value, P6::Value, P7::Value, P8::Value, P9::Value), M::Error>) -> bool {
        match o {
            MatchOutcome::Matched(m2, v) => chain_matched::<M, P0, (P1, P2, P3, P4, P5, P6, P7, P8, P9)>(
                self.0,
                (self.1, self.2, self.3, self.4, self.5, self.6, self.7, self.8, self.9),
                m,
                m2,
                (v.0, (v.1, v.2, v.3, v.4, v.5, v.6, v.7, v.8, v.9)),
            ),
            MatchOutcome::Failed(m2, e) => chain_failed::<M, P0, (P1, P2, P3, P4, P5, P6, P7, P8, P9)>(
                self.0,
                (self.1, self.2, self.3, self.4, self.5, self.6, self.7, self.8, self.9),
                m,
                m2,
                e,
            ),
        }
    }

    open spec fn pre(self) -> bool {
        self.0.pre() && self.1.pre() && self.2.pre() && self.3.pre() && self.4.pre() && self.5.pre() && self.6.pre() && self.7.pre() && self.8.pre() && self.9.pre()
    }

    fn async_match(self, matcher: M) -> (f: Self::Future) {
        let (p0, p1, p2, p3, p4, p5, p6, p7, p8, p9) = self;
        MatchTuple10 { inner: (p0, (p1, p2, p3, p4, p5, p6, p7, p8, p9)).async_match(matcher) }
    }
}

} // verus!
