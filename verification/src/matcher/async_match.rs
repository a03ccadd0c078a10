//! The binding trait between patterns and matchers, and the match operations
//! of the generic combinator patterns.

use vstd::prelude::*;
use crate::error::AsyncError;
use crate::io::Async;
use crate::matcher::{Matcher, MatchFuture, MatchOutcome};
use crate::matcher::Phase;
use crate::pattern::combinators::{AndThen, Chain, IterFold, Mapped, Or, OrElse, Then};
use crate::pattern::{Branch, Iter, Pattern};

verus! {

/// The `AsyncMatch` trait allows for asynchronous matching between a pattern
/// `Self` and a matcher `M`.
///
/// `admits` is the pattern's contract: the set of final outcomes matching
/// this pattern against a given matcher may produce.  `async_match` builds
/// the operation; everything its future ever delivers is admitted here.
pub trait AsyncMatch<M: Matcher>: Pattern {
    /// The future type which will produce a value `Self::Value` by matching
    /// this pattern against a matcher `M`.
    type Future: MatchFuture<M, Value = Self::Value>;

    /// The final outcomes that matching this pattern against `m` may
    /// produce.
    spec fn admits(self, m: M, o: MatchOutcome<M, Self::Value, M::Error>) -> bool;

    /// Additional obligation on the pattern's contents (e.g. that a carried
    /// closure is callable); trivially true for most patterns.
    spec fn pre(self) -> bool;

    /// Creates a future which will produce a `Self::Value` by matching this
    /// pattern against `matcher`.
    fn async_match(self, matcher: M) -> (f: Self::Future)
        requires
            self.pre(),
        ensures
            !f.done(),
            f.wf(),
            f.ready() == matcher.always_ready(),
            forall|o: MatchOutcome<M, Self::Value, M::Error>|
                f.admits(o) ==> self.admits(matcher, o),
    ;
}

/// An already-decided match operation: resolves at the first poll without
/// touching the matcher.  This is the future of the `Result` pattern, the
/// base case combinators build on.
pub struct MatchDone<M: Matcher, T> {
    state: Option<MatchOutcome<M, T, M::Error>>,
}

/// Creates an operation that immediately resolves to `outcome`.
pub fn match_done<M: Matcher, T>(outcome: MatchOutcome<M, T, M::Error>) -> (f: MatchDone<M, T>)
    ensures
        !f.done(),
        f.wf(),
        f.ready() == match outcome {
            MatchOutcome::Matched(m, _) => m.always_ready(),
            MatchOutcome::Failed(m, _) => m.always_ready(),
        },
        forall|o: MatchOutcome<M, T, M::Error>| f.admits(o) ==> o == outcome,
        f.admits(outcome),
{
    MatchDone { state: Some(outcome) }
}

impl<M: Matcher, T> MatchFuture<M> for MatchDone<M, T> {
    type Value = T;

    closed spec fn done(&self) -> bool {
        self.state is None
    }

    closed spec fn wf(&self) -> bool {
        true
    }

    closed spec fn ready(&self) -> bool {
        match self.state->Some_0 {
            MatchOutcome::Matched(m, _) => m.always_ready(),
            MatchOutcome::Failed(m, _) => m.always_ready(),
        }
    }

    closed spec fn admits(&self, o: MatchOutcome<M, T, M::Error>) -> bool {
        self.state == Some(o)
    }

    fn poll(&mut self) -> (r: Result<Async<(M, T)>, AsyncError<M, M::Error>>) {
        match self.state.take() {
            Some(MatchOutcome::Matched(m, v)) => Ok(Async::Ready((m, v))),
            Some(MatchOutcome::Failed(m, e)) => Err(AsyncError::new(m, e)),
            None => vstd::pervasive::unreached(),
        }
    }
}

impl<T, E> Pattern for Result<T, E> {
    type Value = T;
}

/// An already-known `Ok`/`Err` immediately resolves without touching the
/// matcher — the base case for combinators that need a trivial next pattern.
impl<M: Matcher, T> AsyncMatch<M> for Result<T, M::Error> {
    type Future = MatchDone<M, T>;

    open spec fn admits(self, m: M, o: MatchOutcome<M, T, M::Error>) -> bool {
        match self {
            Ok(v) => o == MatchOutcome::<M, T, M::Error>::Matched(m, v),
            Err(e) => o == MatchOutcome::<M, T, M::Error>::Failed(m, e),
        }
    }

    open spec fn pre(self) -> bool {
        true
    }

    fn async_match(self, matcher: M) -> (f: Self::Future) {
        match self {
            Ok(v) => match_done(MatchOutcome::Matched(matcher, v)),
            Err(e) => match_done(MatchOutcome::Failed(matcher, e)),
        }
    }
}

/// The outcomes a mapping operation admits: an outcome of the sub-operation
/// `fut` with the transform `f` applied to its value, or a failure of the
/// sub-operation passed through unchanged.
pub open spec fn map_matched<M: Matcher, P: AsyncMatch<M>, F, U>(
    fut: P::Future,
    f: F,
    m2: M,
    v: U,
) -> bool where F: FnOnce(P::Value) -> U {
    exists|v0: P::Value|
        fut.admits(MatchOutcome::Matched(m2, v0)) && #[trigger] call_ensures(f, (v0,), v)
}

/// The outcomes a mapping operation admits (see [`map_matched`]); a failure
/// of the sub-operation is passed through unchanged.
pub open spec fn map_admits<M: Matcher, P: AsyncMatch<M>, F, U>(
    fut: P::Future,
    f: F,
    o: MatchOutcome<M, U, M::Error>,
) -> bool where F: FnOnce(P::Value) -> U {
    match o {
        MatchOutcome::Matched(m2, v) => map_matched::<M, P, F, U>(fut, f, m2, v),
        MatchOutcome::Failed(m2, e) => fut.admits(MatchOutcome::Failed(m2, e)),
    }
}

/// Future to do pattern matching of the `Map` pattern: drives the
/// sub-operation, then applies the transform to its value.
pub struct MatchMap<M: Matcher, P: AsyncMatch<M>, F> {
    state: Option<(P::Future, F)>,
}

impl<M: Matcher, P: AsyncMatch<M>, F, U> MatchFuture<M> for MatchMap<M, P, F> where
    F: FnOnce(P::Value) -> U,
 {
    type Value = U;

    closed spec fn done(&self) -> bool {
        self.state is None
    }

    closed spec fn wf(&self) -> bool {
        !self.done() ==> {
            &&& !self.state->Some_0.0.done()
            &&& self.state->Some_0.0.wf()
            &&& forall|v: P::Value| call_requires(self.state->Some_0.1, (v,))
        }
    }

    closed spec fn ready(&self) -> bool {
        self.state->Some_0.0.ready()
    }

    closed spec fn admits(&self, o: MatchOutcome<M, U, M::Error>) -> bool {
        map_admits::<M, P, F, U>(self.state->Some_0.0, self.state->Some_0.1, o)
    }

    fn poll(&mut self) -> (r: Result<Async<(M, U)>, AsyncError<M, M::Error>>) {
        let (mut fut, f) = match self.state.take() {
            Some(p) => p,
            None => vstd::pervasive::unreached(),
        };
        match fut.poll() {
            Ok(Async::Ready((m, v0))) => {
                let ghost gv0 = v0;
                let v = f(v0);
                proof {
                    assert(old(self).state->Some_0.0.admits(MatchOutcome::Matched(m, gv0))
                        && call_ensures(old(self).state->Some_0.1, (gv0,), v));
                    assert(map_matched::<M, P, F, U>(
                        old(self).state->Some_0.0,
                        old(self).state->Some_0.1,
                        m,
                        v,
                    ));
                }
                Ok(Async::Ready((m, v)))
            },
            Ok(Async::NotReady) => {
                self.state = Some((fut, f));
                Ok(Async::NotReady)
            },
            Err(e) => Err(e),
        }
    }
}

impl<M: Matcher, P: AsyncMatch<M>, F, U> AsyncMatch<M> for Mapped<P, F> where
    F: FnOnce(P::Value) -> U,
 {
    type Future = MatchMap<M, P, F>;

    open spec fn admits(self, m: M, o: MatchOutcome<M, U, M::Error>) -> bool {
        match o {
            MatchOutcome::Matched(m2, v) => exists|v0: P::Value|
                self.pattern().admits(m, MatchOutcome::Matched(m2, v0)) && #[trigger] call_ensures(
                    self.func(),
                    (v0,),
                    v,
                ),
            MatchOutcome::Failed(m2, e) => self.pattern().admits(m, MatchOutcome::Failed(m2, e)),
        }
    }

    open spec fn pre(self) -> bool {
        &&& self.pattern().pre()
        &&& forall|v: P::Value| call_requires(self.func(), (v,))
    }

    fn async_match(self, matcher: M) -> (f: Self::Future) {
        let ghost gself = self;
        let (p, f) = self.unwrap();
        let sub = p.async_match(matcher);
        let r = MatchMap { state: Some((sub, f)) };
        proof {
            assert forall|o: MatchOutcome<M, U, M::Error>| r.admits(o) implies gself.admits(
                matcher,
                o,
            ) by {
                match o {
                    MatchOutcome::Matched(m2, v) => {
                        let pair: (P::Future, F) = r.state->Some_0;
                        let v0 = choose|v0: P::Value|
                            pair.0.admits(
                                MatchOutcome::<M, P::Value, M::Error>::Matched(m2, v0),
                            ) && #[trigger] call_ensures(pair.1, (v0,), v);
                        assert(gself.pattern().admits(matcher, MatchOutcome::Matched(m2, v0))
                            && call_ensures(gself.func(), (v0,), v));
                    },
                    MatchOutcome::Failed(m2, e) => {},
                }
            }
        }
        r
    }
}

/// A chained match resolved: some intermediate matcher exists after which
/// the first pattern yielded `v.0` and from which the second yielded `v.1`.
pub open spec fn chain_matched<M: Matcher, P0: AsyncMatch<M>, P1: AsyncMatch<M>>(
    p0: P0,
    p1: P1,
    m: M,
    m2: M,
    v: (P0::Value, P1::Value),
) -> bool {
    exists|m1: M|
        #[trigger] p0.admits(m, MatchOutcome::Matched(m1, v.0)) && p1.admits(
            m1,
            MatchOutcome::Matched(m2, v.1),
        )
}

/// A chained match failed: in the first pattern, or in the second after the
/// first resolved.
pub open spec fn chain_failed<M: Matcher, P0: AsyncMatch<M>, P1: AsyncMatch<M>>(
    p0: P0,
    p1: P1,
    m: M,
    m2: M,
    e: M::Error,
) -> bool {
    ||| p0.admits(m, MatchOutcome::Failed(m2, e))
    ||| exists|m1: M, v0: P0::Value|
        #[trigger] p0.admits(m, MatchOutcome::Matched(m1, v0)) && p1.admits(
            m1,
            MatchOutcome::Failed(m2, e),
        )
}

/// Like [`chain_matched`], for an in-flight first operation.
pub open spec fn chain_fut_matched<M: Matcher, P0: AsyncMatch<M>, P1: AsyncMatch<M>>(
    f0: P0::Future,
    p1: P1,
    m2: M,
    v: (P0::Value, P1::Value),
) -> bool {
    exists|m1: M|
        #[trigger] f0.admits(MatchOutcome::Matched(m1, v.0)) && p1.admits(
            m1,
            MatchOutcome::Matched(m2, v.1),
        )
}

/// Like [`chain_failed`], for an in-flight first operation.
pub open spec fn chain_fut_failed<M: Matcher, P0: AsyncMatch<M>, P1: AsyncMatch<M>>(
    f0: P0::Future,
    p1: P1,
    m2: M,
    e: M::Error,
) -> bool {
    ||| f0.admits(MatchOutcome::Failed(m2, e))
    ||| exists|m1: M, v0: P0::Value|
        #[trigger] f0.admits(MatchOutcome::Matched(m1, v0)) && p1.admits(
            m1,
            MatchOutcome::Failed(m2, e),
        )
}

/// Future to do pattern matching of the `Chain` pattern: drives the first
/// operation to completion, binds the second pattern to the returned
/// matcher, and pairs the values.
pub struct MatchChain<M: Matcher, P0: AsyncMatch<M>, P1: AsyncMatch<M>> {
    state: Phase<(P0::Future, P1), (P1::Future, P0::Value)>,
}

impl<M: Matcher, P0: AsyncMatch<M>, P1: AsyncMatch<M>> MatchFuture<M> for MatchChain<M, P0, P1> {
    type Value = (P0::Value, P1::Value);

    closed spec fn done(&self) -> bool {
        self.state is Done
    }

    closed spec fn wf(&self) -> bool {
        match self.state {
            Phase::A((f0, p1)) => !f0.done() && f0.wf() && p1.pre(),
            Phase::B((f1, v0)) => !f1.done() && f1.wf(),
            Phase::Done => true,
        }
    }

    closed spec fn ready(&self) -> bool {
        match self.state {
            Phase::A((f0, p1)) => f0.ready(),
            Phase::B((f1, v0)) => f1.ready(),
            Phase::Done => true,
        }
    }

    closed spec fn admits(&self, o: MatchOutcome<M, (P0::Value, P1::Value), M::Error>) -> bool {
        match self.state {
            Phase::A((f0, p1)) => match o {
                MatchOutcome::Matched(m2, v) => chain_fut_matched::<M, P0, P1>(f0, p1, m2, v),
                MatchOutcome::Failed(m2, e) => chain_fut_failed::<M, P0, P1>(f0, p1, m2, e),
            },
            Phase::B((f1, v0)) => match o {
                MatchOutcome::Matched(m2, v) => v.0 == v0 && f1.admits(
                    MatchOutcome::Matched(m2, v.1),
                ),
                MatchOutcome::Failed(m2, e) => f1.admits(MatchOutcome::Failed(m2, e)),
            },
            Phase::Done => false,
        }
    }

    fn poll(&mut self) -> (r: Result<
        Async<(M, (P0::Value, P1::Value))>,
        AsyncError<M, M::Error>,
    >) {
        match self.state.take() {
            Phase::A((mut f0, p1)) => {
                let ghost gf0 = f0;
                let ghost gp1 = p1;
                match f0.poll() {
                    Ok(Async::Ready((m1, v0))) => {
                        let ghost gm1 = m1;
                        let ghost gv0 = v0;
                        let mut f1 = p1.async_match(m1);
                        let ghost gf1 = f1;
                        match f1.poll() {
                            Ok(Async::Ready((m2, v1))) => {
                                proof {
                                    let gv: (P0::Value, P1::Value) = (gv0, v1);
                                    assert(gf0.admits(MatchOutcome::Matched(gm1, gv.0))
                                        && gp1.admits(gm1, MatchOutcome::Matched(m2, gv.1)));
                                    assert(chain_fut_matched::<M, P0, P1>(gf0, gp1, m2, gv));
                                    assert(old(self).admits(MatchOutcome::Matched(m2, gv)));
                                }
                                Ok(Async::Ready((m2, (v0, v1))))
                            },
                            Ok(Async::NotReady) => {
                                proof {
                                    assert forall|o: MatchOutcome<M, (P0::Value, P1::Value), M::Error>|
                                        (match o {
                                            MatchOutcome::Matched(m2, v) => v.0 == gv0
                                                && f1.admits(MatchOutcome::Matched(m2, v.1)),
                                            MatchOutcome::Failed(m2, e) => f1.admits(
                                                MatchOutcome::Failed(m2, e),
                                            ),
                                        }) implies old(self).admits(o) by {
                                        match o {
                                            MatchOutcome::Matched(m2, v) => {
                                                assert(gf0.admits(MatchOutcome::Matched(gm1, v.0))
                                                    && gp1.admits(
                                                    gm1,
                                                    MatchOutcome::Matched(m2, v.1),
                                                ));
                                                assert(chain_fut_matched::<M, P0, P1>(
                                                    gf0,
                                                    gp1,
                                                    m2,
                                                    v,
                                                ));
                                            },
                                            MatchOutcome::Failed(m2, e) => {
                                                assert(gf0.admits(MatchOutcome::Matched(gm1, gv0))
                                                    && gp1.admits(
                                                    gm1,
                                                    MatchOutcome::Failed(m2, e),
                                                ));
                                                assert(chain_fut_failed::<M, P0, P1>(
                                                    gf0,
                                                    gp1,
                                                    m2,
                                                    e,
                                                ));
                                            },
                                        }
                                    }
                                }
                                self.state = Phase::B((f1, v0));
                                Ok(Async::NotReady)
                            },
                            Err(e) => {
                                proof {
                                    assert(gf0.admits(MatchOutcome::Matched(gm1, gv0)) && gp1.admits(
                                        gm1,
                                        MatchOutcome::Failed(e.spec_state(), e.spec_error()),
                                    ));
                                    assert(chain_fut_failed::<M, P0, P1>(
                                        gf0,
                                        gp1,
                                        e.spec_state(),
                                        e.spec_error(),
                                    ));
                                }
                                Err(e)
                            },
                        }
                    },
                    Ok(Async::NotReady) => {
                        self.state = Phase::A((f0, p1));
                        Ok(Async::NotReady)
                    },
                    Err(e) => Err(e),
                }
            },
            Phase::B((mut f1, v0)) => {
                match f1.poll() {
                    Ok(Async::Ready((m2, v1))) => Ok(Async::Ready((m2, (v0, v1)))),
                    Ok(Async::NotReady) => {
                        self.state = Phase::B((f1, v0));
                        Ok(Async::NotReady)
                    },
                    Err(e) => Err(e),
                }
            },
            Phase::Done => vstd::pervasive::unreached(),
        }
    }
}

impl<M: Matcher, P0: AsyncMatch<M>, P1: AsyncMatch<M>> AsyncMatch<M> for Chain<P0, P1> {
    type Future = MatchChain<M, P0, P1>;

    open spec fn admits(
        self,
        m: M,
        o: MatchOutcome<M, (P0::Value, P1::Value), M::Error>,
    ) -> bool {
        match o {
            MatchOutcome::Matched(m2, v) => chain_matched(self.first(), self.second(), m, m2, v),
            MatchOutcome::Failed(m2, e) => chain_failed(self.first(), self.second(), m, m2, e),
        }
    }

    open spec fn pre(self) -> bool {
        self.first().pre() && self.second().pre()
    }

    fn async_match(self, matcher: M) -> (f: Self::Future) {
        let ghost gself = self;
        let (p0, p1) = self.unwrap();
        let sub = p0.async_match(matcher);
        let ghost gsub = sub;
        let r = MatchChain { state: Phase::A((sub, p1)) };
        proof {
            assert forall|o: MatchOutcome<M, (P0::Value, P1::Value), M::Error>| r.admits(o)
                implies gself.admits(matcher, o) by {
                match o {
                    MatchOutcome::Matched(m2, v) => {
                        let m1 = choose|m1: M|
                            #[trigger] gsub.admits(MatchOutcome::Matched(m1, v.0))
                                && gself.second().admits(m1, MatchOutcome::Matched(m2, v.1));
                        assert(gself.first().admits(matcher, MatchOutcome::Matched(m1, v.0))
                            && gself.second().admits(m1, MatchOutcome::Matched(m2, v.1)));
                    },
                    MatchOutcome::Failed(m2, e) => {
                        if !gsub.admits(MatchOutcome::Failed(m2, e)) {
                            let (m1, v0) = choose|m1: M, v0: P0::Value|
                                #[trigger] gsub.admits(MatchOutcome::Matched(m1, v0))
                                    && gself.second().admits(m1, MatchOutcome::Failed(m2, e));
                            assert(gself.first().admits(matcher, MatchOutcome::Matched(m1, v0))
                                && gself.second().admits(m1, MatchOutcome::Failed(m2, e)));
                        }
                    },
                }
            }
        }
        r
    }
}

impl Pattern for () {
    type Value = ();
}

/// The unit pattern immediately resolves to `()` without touching the
/// matcher.
impl<M: Matcher> AsyncMatch<M> for () {
    type Future = MatchDone<M, ()>;

    open spec fn admits(self, m: M, o: MatchOutcome<M, (), M::Error>) -> bool {
        o == MatchOutcome::<M, (), M::Error>::Matched(m, ())
    }

    open spec fn pre(self) -> bool {
        true
    }

    fn async_match(self, matcher: M) -> (f: Self::Future) {
        match_done(MatchOutcome::Matched(matcher, ()))
    }
}

impl<P0: Pattern, P1: Pattern> Pattern for (P0, P1) {
    type Value = (P0::Value, P1::Value);
}

/// A pair of patterns is matched in sequence, like `Chain`.
impl<M: Matcher, P0: AsyncMatch<M>, P1: AsyncMatch<M>> AsyncMatch<M> for (P0, P1) {
    type Future = MatchChain<M, P0, P1>;

    open spec fn admits(
        self,
        m: M,
        o: MatchOutcome<M, (P0::Value, P1::Value), M::Error>,
    ) -> bool {
        match o {
            MatchOutcome::Matched(m2, v) => chain_matched(self.0, self.1, m, m2, v),
            MatchOutcome::Failed(m2, e) => chain_failed(self.0, self.1, m, m2, e),
        }
    }

    open spec fn pre(self) -> bool {
        self.0.pre() && self.1.pre()
    }

    fn async_match(self, matcher: M) -> (f: Self::Future) {
        let ghost gself = self;
        let (p0, p1) = self;
        let sub = p0.async_match(matcher);
        let ghost gsub = sub;
        let r = MatchChain { state: Phase::A((sub, p1)) };
        proof {
            assert forall|o: MatchOutcome<M, (P0::Value, P1::Value), M::Error>| r.admits(o)
                implies gself.admits(matcher, o) by {
                match o {
                    MatchOutcome::Matched(m2, v) => {
                        let m1 = choose|m1: M|
                            #[trigger] gsub.admits(MatchOutcome::Matched(m1, v.0))
                                && gself.1.admits(m1, MatchOutcome::Matched(m2, v.1));
                        assert(gself.0.admits(matcher, MatchOutcome::Matched(m1, v.0))
                            && gself.1.admits(m1, MatchOutcome::Matched(m2, v.1)));
                    },
                    MatchOutcome::Failed(m2, e) => {
                        if !gsub.admits(MatchOutcome::Failed(m2, e)) {
                            let (m1, v0) = choose|m1: M, v0: P0::Value|
                                #[trigger] gsub.admits(MatchOutcome::Matched(m1, v0))
                                    && gself.1.admits(m1, MatchOutcome::Failed(m2, e));
                            assert(gself.0.admits(matcher, MatchOutcome::Matched(m1, v0))
                                && gself.1.admits(m1, MatchOutcome::Failed(m2, e)));
                        }
                    },
                }
            }
        }
        r
    }
}

/// Drives an operation whose matcher never blocks to completion at once.
///
/// This is the synchronous convenience for in-memory streams and blocking
/// sinks: on such a matcher a single poll always resolves.
pub fn wait<M: Matcher, F: MatchFuture<M>>(f: F) -> (r: Result<
    (M, F::Value),
    AsyncError<M, M::Error>,
>)
    requires
        !f.done(),
        f.wf(),
        f.ready(),
    ensures
        match r {
            Ok((m, v)) => f.admits(MatchOutcome::Matched(m, v)),
            Err(e) => f.admits(MatchOutcome::Failed(e.spec_state(), e.spec_error())),
        },
{
    let mut fut = f;
    match fut.poll() {
        Ok(Async::Ready((m, v))) => Ok((m, v)),
        Ok(Async::NotReady) => vstd::pervasive::unreached(),
        Err(e) => Err(e),
    }
}

/// A continuation match resolved: the first pattern yielded a value, the
/// continuation picked the next pattern from it, and that pattern resolved.
pub open spec fn and_then_matched<M: Matcher, P0: AsyncMatch<M>, P1: AsyncMatch<M>, F>(
    p0: P0,
    f: F,
    m: M,
    m2: M,
    v: P1::Value,
) -> bool where F: FnOnce(P0::Value) -> P1 {
    exists|m1: M, v0: P0::Value, p1: P1|
        #![trigger p0.admits(m, MatchOutcome::Matched(m1, v0)), call_ensures(f, (v0,), p1)]
        {
            &&& p0.admits(m, MatchOutcome::Matched(m1, v0))
            &&& call_ensures(f, (v0,), p1)
            &&& p1.admits(m1, MatchOutcome::Matched(m2, v))
        }
}

/// A continuation match failed: in the first pattern, or in the pattern the
/// continuation picked.
pub open spec fn and_then_failed<M: Matcher, P0: AsyncMatch<M>, P1: AsyncMatch<M>, F>(
    p0: P0,
    f: F,
    m: M,
    m2: M,
    e: M::Error,
) -> bool where F: FnOnce(P0::Value) -> P1 {
    ||| p0.admits(m, MatchOutcome::Failed(m2, e))
    ||| exists|m1: M, v0: P0::Value, p1: P1|
        #![trigger p0.admits(m, MatchOutcome::Matched(m1, v0)), call_ensures(f, (v0,), p1)]
        {
            &&& p0.admits(m, MatchOutcome::Matched(m1, v0))
            &&& call_ensures(f, (v0,), p1)
            &&& p1.admits(m1, MatchOutcome::Failed(m2, e))
        }
}

/// Like [`and_then_matched`], for an in-flight first operation.
pub open spec fn and_then_fut_matched<M: Matcher, P0: AsyncMatch<M>, P1: AsyncMatch<M>, F>(
    f0: P0::Future,
    f: F,
    m2: M,
    v: P1::Value,
) -> bool where F: FnOnce(P0::Value) -> P1 {
    exists|m1: M, v0: P0::Value, p1: P1|
        #![trigger f0.admits(MatchOutcome::Matched(m1, v0)), call_ensures(f, (v0,), p1)]
        {
            &&& f0.admits(MatchOutcome::Matched(m1, v0))
            &&& call_ensures(f, (v0,), p1)
            &&& p1.admits(m1, MatchOutcome::Matched(m2, v))
        }
}

/// Like [`and_then_failed`], for an in-flight first operation.
pub open spec fn and_then_fut_failed<M: Matcher, P0: AsyncMatch<M>, P1: AsyncMatch<M>, F>(
    f0: P0::Future,
    f: F,
    m2: M,
    e: M::Error,
) -> bool where F: FnOnce(P0::Value) -> P1 {
    ||| f0.admits(MatchOutcome::Failed(m2, e))
    ||| exists|m1: M, v0: P0::Value, p1: P1|
        #![trigger f0.admits(MatchOutcome::Matched(m1, v0)), call_ensures(f, (v0,), p1)]
        {
            &&& f0.admits(MatchOutcome::Matched(m1, v0))
            &&& call_ensures(f, (v0,), p1)
            &&& p1.admits(m1, MatchOutcome::Failed(m2, e))
        }
}

/// Future to do pattern matching of the `AndThen` pattern: drives the first
/// operation, feeds its value to the continuation, and drives the pattern
/// the continuation picked.
pub struct MatchAndThen<M: Matcher, P0: AsyncMatch<M>, P1: AsyncMatch<M>, F> {
    state: Phase<(P0::Future, F), P1::Future>,
}

impl<M: Matcher, P0: AsyncMatch<M>, P1: AsyncMatch<M>, F> MatchFuture<M> for MatchAndThen<
    M,
    P0,
    P1,
    F,
> where F: FnOnce(P0::Value) -> P1 {
    type Value = P1::Value;

    closed spec fn done(&self) -> bool {
        self.state is Done
    }

    closed spec fn wf(&self) -> bool {
        match self.state {
            Phase::A((f0, f)) => {
                &&& !f0.done()
                &&& f0.wf()
                &&& forall|v: P0::Value| call_requires(f, (v,))
                &&& forall|v: P0::Value, p1: P1| call_ensures(f, (v,), p1) ==> p1.pre()
            },
            Phase::B(f1) => !f1.done() && f1.wf(),
            Phase::Done => true,
        }
    }

    closed spec fn ready(&self) -> bool {
        match self.state {
            Phase::A((f0, f)) => f0.ready(),
            Phase::B(f1) => f1.ready(),
            Phase::Done => true,
        }
    }

    closed spec fn admits(&self, o: MatchOutcome<M, P1::Value, M::Error>) -> bool {
        match self.state {
            Phase::A((f0, f)) => match o {
                MatchOutcome::Matched(m2, v) => and_then_fut_matched::<M, P0, P1, F>(
                    f0,
                    f,
                    m2,
                    v,
                ),
                MatchOutcome::Failed(m2, e) => and_then_fut_failed::<M, P0, P1, F>(f0, f, m2, e),
            },
            Phase::B(f1) => match o {
                MatchOutcome::Matched(m2, v) => f1.admits(MatchOutcome::Matched(m2, v)),
                MatchOutcome::Failed(m2, e) => f1.admits(MatchOutcome::Failed(m2, e)),
            },
            Phase::Done => false,
        }
    }

    fn poll(&mut self) -> (r: Result<Async<(M, P1::Value)>, AsyncError<M, M::Error>>) {
        match self.state.take() {
            Phase::A((mut f0, f)) => {
                let ghost gf0 = f0;
                let ghost gf = f;
                match f0.poll() {
                    Ok(Async::Ready((m1, v0))) => {
                        let ghost gm1 = m1;
                        let ghost gv0 = v0;
                        let p1 = f(v0);
                        let ghost gp1 = p1;
                        let mut f1 = p1.async_match(m1);
                        let ghost gf1 = f1;
                        match f1.poll() {
                            Ok(Async::Ready((m2, v1))) => {
                                proof {
                                    assert(gf0.admits(MatchOutcome::Matched(gm1, gv0))
                                        && call_ensures(gf, (gv0,), gp1) && gp1.admits(
                                        gm1,
                                        MatchOutcome::Matched(m2, v1),
                                    ));
                                    assert(and_then_fut_matched::<M, P0, P1, F>(gf0, gf, m2, v1));
                                }
                                Ok(Async::Ready((m2, v1)))
                            },
                            Ok(Async::NotReady) => {
                                proof {
                                    assert forall|o: MatchOutcome<M, P1::Value, M::Error>|
                                        (match o {
                                            MatchOutcome::Matched(m2, v) => f1.admits(
                                                MatchOutcome::Matched(m2, v),
                                            ),
                                            MatchOutcome::Failed(m2, e) => f1.admits(
                                                MatchOutcome::Failed(m2, e),
                                            ),
                                        }) implies old(self).admits(o) by {
                                        match o {
                                            MatchOutcome::Matched(m2, v) => {
                                                assert(gf0.admits(MatchOutcome::Matched(gm1, gv0))
                                                    && call_ensures(gf, (gv0,), gp1) && gp1.admits(
                                                    gm1,
                                                    MatchOutcome::Matched(m2, v),
                                                ));
                                                assert(and_then_fut_matched::<M, P0, P1, F>(
                                                    gf0,
                                                    gf,
                                                    m2,
                                                    v,
                                                ));
                                            },
                                            MatchOutcome::Failed(m2, e) => {
                                                assert(gf0.admits(MatchOutcome::Matched(gm1, gv0))
                                                    && call_ensures(gf, (gv0,), gp1) && gp1.admits(
                                                    gm1,
                                                    MatchOutcome::Failed(m2, e),
                                                ));
                                                assert(and_then_fut_failed::<M, P0, P1, F>(
                                                    gf0,
                                                    gf,
                                                    m2,
                                                    e,
                                                ));
                                            },
                                        }
                                    }
                                }
                                self.state = Phase::B(f1);
                                Ok(Async::NotReady)
                            },
                            Err(e) => {
                                proof {
                                    assert(gf0.admits(MatchOutcome::Matched(gm1, gv0))
                                        && call_ensures(gf, (gv0,), gp1) && gp1.admits(
                                        gm1,
                                        MatchOutcome::Failed(e.spec_state(), e.spec_error()),
                                    ));
                                    assert(and_then_fut_failed::<M, P0, P1, F>(
                                        gf0,
                                        gf,
                                        e.spec_state(),
                                        e.spec_error(),
                                    ));
                                }
                                Err(e)
                            },
                        }
                    },
                    Ok(Async::NotReady) => {
                        self.state = Phase::A((f0, f));
                        Ok(Async::NotReady)
                    },
                    Err(e) => Err(e),
                }
            },
            Phase::B(mut f1) => {
                match f1.poll() {
                    Ok(Async::Ready((m2, v1))) => Ok(Async::Ready((m2, v1))),
                    Ok(Async::NotReady) => {
                        self.state = Phase::B(f1);
                        Ok(Async::NotReady)
                    },
                    Err(e) => Err(e),
                }
            },
            Phase::Done => vstd::pervasive::unreached(),
        }
    }
}

impl<M: Matcher, P0: AsyncMatch<M>, P1: AsyncMatch<M>, F> AsyncMatch<M> for AndThen<
    P0,
    F,
    P1,
> where F: FnOnce(P0::Value) -> P1 {
    type Future = MatchAndThen<M, P0, P1, F>;

    open spec fn admits(self, m: M, o: MatchOutcome<M, P1::Value, M::Error>) -> bool {
        match o {
            MatchOutcome::Matched(m2, v) => and_then_matched::<M, P0, P1, F>(
                self.pattern(),
                self.func(),
                m,
                m2,
                v,
            ),
            MatchOutcome::Failed(m2, e) => and_then_failed::<M, P0, P1, F>(
                self.pattern(),
                self.func(),
                m,
                m2,
                e,
            ),
        }
    }

    open spec fn pre(self) -> bool {
        &&& self.pattern().pre()
        &&& forall|v: P0::Value| call_requires(self.func(), (v,))
        &&& forall|v: P0::Value, p1: P1| call_ensures(self.func(), (v,), p1) ==> p1.pre()
    }

    fn async_match(self, matcher: M) -> (f: Self::Future) {
        let ghost gself = self;
        let (p0, f) = self.unwrap();
        let sub = p0.async_match(matcher);
        let ghost gsub = sub;
        let r = MatchAndThen { state: Phase::A((sub, f)) };
        r
    }
}

/// The outcomes of folding a sequence of patterns from matcher `m` with
/// accumulator `acc`: each pattern is matched in order, its value folded in;
/// a failure of any pattern is the failure of the whole fold.
pub open spec fn iter_fold_admits<M: Matcher, P: AsyncMatch<M>, F, T>(
    ps: Seq<P>,
    f: F,
    acc: T,
    m: M,
    o: MatchOutcome<M, T, M::Error>,
) -> bool where F: Fn(T, P::Value) -> T
    decreases ps.len(),
{
    if ps.len() == 0 {
        o == MatchOutcome::<M, T, M::Error>::Matched(m, acc)
    } else {
        ||| exists|m1: M, v0: P::Value, acc1: T|
            {
                &&& #[trigger] ps[0].admits(m, MatchOutcome::Matched(m1, v0))
                &&& #[trigger] call_ensures(f, (acc, v0), acc1)
                &&& iter_fold_admits(ps.skip(1), f, acc1, m1, o)
            }
        ||| match o {
            MatchOutcome::Failed(m2, e) => ps[0].admits(m, MatchOutcome::Failed(m2, e)),
            MatchOutcome::Matched(_, _) => false,
        }
    }
}

/// Like [`iter_fold_admits`], for an in-flight operation of the first
/// pattern followed by the remaining sequence.
pub open spec fn iter_fold_fut_admits<M: Matcher, P: AsyncMatch<M>, F, T>(
    fut: P::Future,
    rest: Seq<P>,
    f: F,
    acc: T,
    o: MatchOutcome<M, T, M::Error>,
) -> bool where F: Fn(T, P::Value) -> T {
    ||| exists|m1: M, v0: P::Value, acc1: T|
        {
            &&& #[trigger] fut.admits(MatchOutcome::Matched(m1, v0))
            &&& #[trigger] call_ensures(f, (acc, v0), acc1)
            &&& iter_fold_admits(rest, f, acc1, m1, o)
        }
    ||| match o {
        MatchOutcome::Failed(m2, e) => fut.admits(MatchOutcome::Failed(m2, e)),
        MatchOutcome::Matched(_, _) => false,
    }
}

/// Future to do pattern matching of the `IterFold` pattern: drives each
/// pattern of the sequence in order, folding its value into the
/// accumulator.
pub struct MatchIterFold<M: Matcher, P: AsyncMatch<M>, F, T> {
    state: Phase<(P::Future, Vec<P>, T, F), (M, T)>,
}

impl<M: Matcher, P: AsyncMatch<M>, F, T> MatchFuture<M> for MatchIterFold<M, P, F, T> where
    F: Fn(T, P::Value) -> T,
 {
    type Value = T;

    closed spec fn done(&self) -> bool {
        self.state is Done
    }

    closed spec fn wf(&self) -> bool {
        match self.state {
            Phase::A((fut, ps, acc, f)) => {
                &&& !fut.done()
                &&& fut.wf()
                &&& forall|i: int| 0 <= i < ps@.len() ==> #[trigger] ps@[i].pre()
                &&& forall|t: T, v: P::Value| call_requires(f, (t, v))
            },
            Phase::B(_) => true,
            Phase::Done => true,
        }
    }

    closed spec fn ready(&self) -> bool {
        match self.state {
            Phase::A((fut, ps, acc, f)) => fut.ready(),
            Phase::B((m, acc)) => m.always_ready(),
            Phase::Done => true,
        }
    }

    closed spec fn admits(&self, o: MatchOutcome<M, T, M::Error>) -> bool {
        match self.state {
            Phase::A((fut, ps, acc, f)) => iter_fold_fut_admits::<M, P, F, T>(
                fut,
                ps@,
                f,
                acc,
                o,
            ),
            Phase::B((m, acc)) => o == MatchOutcome::<M, T, M::Error>::Matched(m, acc),
            Phase::Done => false,
        }
    }

    fn poll(&mut self) -> (r: Result<Async<(M, T)>, AsyncError<M, M::Error>>) {
        match self.state.take() {
            Phase::B((m, acc)) => Ok(Async::Ready((m, acc))),
            Phase::A((fut0, ps0, acc0, f)) => {
                let mut fut = fut0;
                let mut ps = ps0;
                let mut acc = acc0;
                loop
                    invariant
                        !fut.done(),
                        fut.wf(),
                        forall|i: int| 0 <= i < ps@.len() ==> #[trigger] ps@[i].pre(),
                        forall|t: T, v: P::Value| call_requires(f, (t, v)),
                        fut.ready() == old(self).ready(),
                        forall|o: MatchOutcome<M, T, M::Error>|
                            iter_fold_fut_admits::<M, P, F, T>(fut, ps@, f, acc, o) ==> old(
                                self,
                            ).admits(o),
                        self.done(),
                    decreases ps@.len(),
                {
                    let ghost gfut = fut;
                    let ghost gacc = acc;
                    match fut.poll() {
                        Ok(Async::NotReady) => {
                            proof {
                                assert forall|o: MatchOutcome<M, T, M::Error>|
                                    iter_fold_fut_admits::<M, P, F, T>(fut, ps@, f, acc, o)
                                        implies old(self).admits(o) by {
                                    if exists|m1: M, v0: P::Value, acc1: T|
                                        {
                                            &&& #[trigger] fut.admits(
                                                MatchOutcome::Matched(m1, v0),
                                            )
                                            &&& #[trigger] call_ensures(f, (acc, v0), acc1)
                                            &&& iter_fold_admits(ps@, f, acc1, m1, o)
                                        } {
                                        let (m1, v0, acc1) = choose|m1: M, v0: P::Value, acc1: T|
                                            {
                                                &&& #[trigger] fut.admits(
                                                    MatchOutcome::Matched(m1, v0),
                                                )
                                                &&& #[trigger] call_ensures(f, (acc, v0), acc1)
                                                &&& iter_fold_admits(ps@, f, acc1, m1, o)
                                            };
                                        assert(gfut.admits(MatchOutcome::Matched(m1, v0))
                                            && call_ensures(f, (acc, v0), acc1));
                                        assert(iter_fold_fut_admits::<M, P, F, T>(
                                            gfut,
                                            ps@,
                                            f,
                                            acc,
                                            o,
                                        ));
                                    } else {
                                        assert(iter_fold_fut_admits::<M, P, F, T>(
                                            gfut,
                                            ps@,
                                            f,
                                            acc,
                                            o,
                                        ));
                                    }
                                }
                            }
                            self.state = Phase::A((fut, ps, acc, f));
                            return Ok(Async::NotReady);
                        },
                        Err(e) => {
                            proof {
                                assert(iter_fold_fut_admits::<M, P, F, T>(
                                    gfut,
                                    ps@,
                                    f,
                                    acc,
                                    MatchOutcome::Failed(e.spec_state(), e.spec_error()),
                                ));
                            }
                            return Err(e);
                        },
                        Ok(Async::Ready((m1, v0))) => {
                            let ghost gm1 = m1;
                            let ghost gv0 = v0;
                            acc = f(acc, v0);
                            if ps.len() == 0 {
                                proof {
                                    assert(ps@.len() == 0);
                                    assert(iter_fold_admits(ps@, f, acc, gm1, MatchOutcome::<
                                        M,
                                        T,
                                        M::Error,
                                    >::Matched(gm1, acc)));
                                    assert(gfut.admits(MatchOutcome::Matched(gm1, gv0))
                                        && call_ensures(f, (gacc, gv0), acc));
                                    assert(iter_fold_fut_admits::<M, P, F, T>(
                                        gfut,
                                        ps@,
                                        f,
                                        gacc,
                                        MatchOutcome::Matched(gm1, acc),
                                    ));
                                }
                                return Ok(Async::Ready((m1, acc)));
                            } else {
                                let ghost gps = ps@;
                                let p = ps.remove(0);
                                let ghost gfut2_pre = p;
                                fut = p.async_match(m1);
                                proof {
                                    assert(ps@ =~= gps.skip(1));
                                    assert forall|o: MatchOutcome<M, T, M::Error>|
                                        iter_fold_fut_admits::<M, P, F, T>(fut, ps@, f, acc, o)
                                            implies iter_fold_fut_admits::<M, P, F, T>(
                                        gfut,
                                        gps,
                                        f,
                                        gacc,
                                        o,
                                    ) by {
                                        if exists|ma: M, va: P::Value, acca: T|
                                            {
                                                &&& #[trigger] fut.admits(
                                                    MatchOutcome::Matched(ma, va),
                                                )
                                                &&& #[trigger] call_ensures(f, (acc, va), acca)
                                                &&& iter_fold_admits(ps@, f, acca, ma, o)
                                            } {
                                            let (ma, va, acca) = choose|
                                                ma: M,
                                                va: P::Value,
                                                acca: T,
                                            |
                                                {
                                                    &&& #[trigger] fut.admits(
                                                        MatchOutcome::Matched(ma, va),
                                                    )
                                                    &&& #[trigger] call_ensures(
                                                        f,
                                                        (acc, va),
                                                        acca,
                                                    )
                                                    &&& iter_fold_admits(ps@, f, acca, ma, o)
                                                };
                                            assert(gps[0].admits(
                                                gm1,
                                                MatchOutcome::Matched(ma, va),
                                            ) && call_ensures(f, (acc, va), acca));
                                            assert(iter_fold_admits(gps, f, acc, gm1, o));
                                        } else {
                                            match o {
                                                MatchOutcome::Failed(m2, e) => {
                                                    assert(fut.admits(
                                                        MatchOutcome::Failed(m2, e),
                                                    ));
                                                    assert(gps[0].admits(
                                                        gm1,
                                                        MatchOutcome::Failed(m2, e),
                                                    ));
                                                    assert(iter_fold_admits(
                                                        gps,
                                                        f,
                                                        acc,
                                                        gm1,
                                                        o,
                                                    ));
                                                },
                                                MatchOutcome::Matched(_, _) => {},
                                            }
                                        }
                                        assert(gfut.admits(MatchOutcome::Matched(gm1, gv0))
                                            && call_ensures(f, (gacc, gv0), acc));
                                    }
                                }
                            }
                        },
                    }
                }
            },
            Phase::Done => vstd::pervasive::unreached(),
        }
    }
}

impl<M: Matcher, P: AsyncMatch<M>, F, T> AsyncMatch<M> for IterFold<P, F, T> where
    F: Fn(T, P::Value) -> T,
 {
    type Future = MatchIterFold<M, P, F, T>;

    open spec fn admits(self, m: M, o: MatchOutcome<M, T, M::Error>) -> bool {
        iter_fold_admits(self.patterns(), self.func(), self.acc(), m, o)
    }

    open spec fn pre(self) -> bool {
        &&& forall|i: int|
            0 <= i < self.patterns().len() ==> #[trigger] self.patterns()[i].pre()
        &&& forall|t: T, v: P::Value| call_requires(self.func(), (t, v))
    }

    fn async_match(self, matcher: M) -> (f: Self::Future) {
        let ghost gself = self;
        let (mut ps, f, init) = self.unwrap();
        if ps.len() == 0 {
            MatchIterFold { state: Phase::B((matcher, init)) }
        } else {
            let ghost gps = ps@;
            let p = ps.remove(0);
            let sub = p.async_match(matcher);
            let ghost gsub = sub;
            let r = MatchIterFold { state: Phase::A((sub, ps, init, f)) };
            proof {
                assert(ps@ =~= gps.skip(1));
                assert forall|o: MatchOutcome<M, T, M::Error>| r.admits(o) implies gself.admits(
                    matcher,
                    o,
                ) by {
                    if exists|ma: M, va: P::Value, acca: T|
                        {
                            &&& #[trigger] gsub.admits(MatchOutcome::Matched(ma, va))
                            &&& #[trigger] call_ensures(f, (init, va), acca)
                            &&& iter_fold_admits(ps@, f, acca, ma, o)
                        } {
                        let (ma, va, acca) = choose|ma: M, va: P::Value, acca: T|
                            {
                                &&& #[trigger] gsub.admits(MatchOutcome::Matched(ma, va))
                                &&& #[trigger] call_ensures(f, (init, va), acca)
                                &&& iter_fold_admits(ps@, f, acca, ma, o)
                            };
                        assert(gps[0].admits(matcher, MatchOutcome::Matched(ma, va))
                            && call_ensures(f, (init, va), acca));
                        assert(iter_fold_admits(gps, f, init, matcher, o));
                    } else {
                        match o {
                            MatchOutcome::Failed(m2, e) => {
                                if gsub.admits(MatchOutcome::Failed(m2, e)) {
                                    assert(gps[0].admits(matcher, MatchOutcome::Failed(m2, e)));
                                    assert(iter_fold_admits(gps, f, init, matcher, o));
                                }
                            },
                            MatchOutcome::Matched(_, _) => {},
                        }
                    }
                }
            }
            r
        }
    }
}

/// A fallback match resolved: the first pattern succeeded, or it failed
/// with some error after which the fixed fallback pattern succeeded.
pub open spec fn or_matched<M: Matcher, P0: AsyncMatch<M>, P1: AsyncMatch<M>>(
    p0: P0,
    p1: P1,
    m: M,
    m2: M,
    v: P0::Value,
) -> bool where P1: AsyncMatch<M, Value = P0::Value> {
    ||| p0.admits(m, MatchOutcome::Matched(m2, v))
    ||| exists|m1: M, e0: M::Error|
        #[trigger] p0.admits(m, MatchOutcome::Failed(m1, e0)) && p1.admits(
            m1,
            MatchOutcome::Matched(m2, v),
        )
}

/// A fallback match failed: the first pattern failed, and so did the fixed
/// fallback pattern after it.
pub open spec fn or_failed<M: Matcher, P0: AsyncMatch<M>, P1: AsyncMatch<M>>(
    p0: P0,
    p1: P1,
    m: M,
    m2: M,
    e: M::Error,
) -> bool where P1: AsyncMatch<M, Value = P0::Value> {
    exists|m1: M, e0: M::Error|
        #[trigger] p0.admits(m, MatchOutcome::Failed(m1, e0)) && p1.admits(
            m1,
            MatchOutcome::Failed(m2, e),
        )
}

/// Like [`or_matched`], for an in-flight first operation.
pub open spec fn or_fut_matched<M: Matcher, P0: AsyncMatch<M>, P1: AsyncMatch<M>>(
    f0: P0::Future,
    p1: P1,
    m2: M,
    v: P0::Value,
) -> bool where P1: AsyncMatch<M, Value = P0::Value> {
    ||| f0.admits(MatchOutcome::Matched(m2, v))
    ||| exists|m1: M, e0: M::Error|
        #[trigger] f0.admits(MatchOutcome::Failed(m1, e0)) && p1.admits(
            m1,
            MatchOutcome::Matched(m2, v),
        )
}

/// Like [`or_failed`], for an in-flight first operation.
pub open spec fn or_fut_failed<M: Matcher, P0: AsyncMatch<M>, P1: AsyncMatch<M>>(
    f0: P0::Future,
    p1: P1,
    m2: M,
    e: M::Error,
) -> bool where P1: AsyncMatch<M, Value = P0::Value> {
    exists|m1: M, e0: M::Error|
        #[trigger] f0.admits(MatchOutcome::Failed(m1, e0)) && p1.admits(
            m1,
            MatchOutcome::Failed(m2, e),
        )
}

/// Future to do pattern matching of the `Or` pattern: drives the first
/// operation; on failure, binds the fallback pattern to the returned
/// matcher and drives it.
pub struct MatchOr<M: Matcher, P0: AsyncMatch<M>, P1: AsyncMatch<M>> {
    state: Phase<(P0::Future, P1), P1::Future>,
}

impl<M: Matcher, P0: AsyncMatch<M>, P1> MatchFuture<M> for MatchOr<M, P0, P1> where
    P1: AsyncMatch<M, Value = P0::Value>,
 {
    type Value = P0::Value;

    closed spec fn done(&self) -> bool {
        self.state is Done
    }

    closed spec fn wf(&self) -> bool {
        match self.state {
            Phase::A((f0, p1)) => !f0.done() && f0.wf() && p1.pre(),
            Phase::B(f1) => !f1.done() && f1.wf(),
            Phase::Done => true,
        }
    }

    closed spec fn ready(&self) -> bool {
        match self.state {
            Phase::A((f0, p1)) => f0.ready(),
            Phase::B(f1) => f1.ready(),
            Phase::Done => true,
        }
    }

    closed spec fn admits(&self, o: MatchOutcome<M, P0::Value, M::Error>) -> bool {
        match self.state {
            Phase::A((f0, p1)) => match o {
                MatchOutcome::Matched(m2, v) => or_fut_matched::<M, P0, P1>(f0, p1, m2, v),
                MatchOutcome::Failed(m2, e) => {
                    ||| f0.admits(MatchOutcome::Failed(m2, e))
                    ||| or_fut_failed::<M, P0, P1>(f0, p1, m2, e)
                },
            },
            Phase::B(f1) => f1.admits(o),
            Phase::Done => false,
        }
    }

    fn poll(&mut self) -> (r: Result<Async<(M, P0::Value)>, AsyncError<M, M::Error>>) {
        match self.state.take() {
            Phase::A((mut f0, p1)) => {
                let ghost gf0 = f0;
                let ghost gp1 = p1;
                match f0.poll() {
                    Ok(Async::Ready((m2, v))) => Ok(Async::Ready((m2, v))),
                    Ok(Async::NotReady) => {
                        self.state = Phase::A((f0, p1));
                        Ok(Async::NotReady)
                    },
                    Err(e) => {
                        let (m1, e0) = e.unwrap();
                        let ghost gm1 = m1;
                        let ghost ge0 = e0;
                        let mut f1 = p1.async_match(m1);
                        match f1.poll() {
                            Ok(Async::Ready((m2, v))) => {
                                proof {
                                    assert(gf0.admits(MatchOutcome::Failed(gm1, ge0))
                                        && gp1.admits(gm1, MatchOutcome::Matched(m2, v)));
                                    assert(or_fut_matched::<M, P0, P1>(gf0, gp1, m2, v));
                                }
                                Ok(Async::Ready((m2, v)))
                            },
                            Ok(Async::NotReady) => {
                                proof {
                                    assert forall|o: MatchOutcome<M, P0::Value, M::Error>|
                                        f1.admits(o) implies old(self).admits(o) by {
                                        match o {
                                            MatchOutcome::Matched(m2, v) => {
                                                assert(gf0.admits(
                                                    MatchOutcome::Failed(gm1, ge0),
                                                ) && gp1.admits(
                                                    gm1,
                                                    MatchOutcome::Matched(m2, v),
                                                ));
                                                assert(or_fut_matched::<M, P0, P1>(
                                                    gf0,
                                                    gp1,
                                                    m2,
                                                    v,
                                                ));
                                            },
                                            MatchOutcome::Failed(m2, e2) => {
                                                assert(gf0.admits(
                                                    MatchOutcome::Failed(gm1, ge0),
                                                ) && gp1.admits(
                                                    gm1,
                                                    MatchOutcome::Failed(m2, e2),
                                                ));
                                                assert(or_fut_failed::<M, P0, P1>(
                                                    gf0,
                                                    gp1,
                                                    m2,
                                                    e2,
                                                ));
                                            },
                                        }
                                    }
                                }
                                self.state = Phase::B(f1);
                                Ok(Async::NotReady)
                            },
                            Err(e2) => {
                                proof {
                                    assert(gf0.admits(MatchOutcome::Failed(gm1, ge0))
                                        && gp1.admits(
                                        gm1,
                                        MatchOutcome::Failed(e2.spec_state(), e2.spec_error()),
                                    ));
                                    assert(or_fut_failed::<M, P0, P1>(
                                        gf0,
                                        gp1,
                                        e2.spec_state(),
                                        e2.spec_error(),
                                    ));
                                }
                                Err(e2)
                            },
                        }
                    },
                }
            },
            Phase::B(mut f1) => {
                match f1.poll() {
                    Ok(Async::Ready((m2, v))) => Ok(Async::Ready((m2, v))),
                    Ok(Async::NotReady) => {
                        self.state = Phase::B(f1);
                        Ok(Async::NotReady)
                    },
                    Err(e) => Err(e),
                }
            },
            Phase::Done => vstd::pervasive::unreached(),
        }
    }
}

impl<M: Matcher, P0: AsyncMatch<M>, P1> AsyncMatch<M> for Or<P0, P1> where
    P1: AsyncMatch<M, Value = P0::Value>,
 {
    type Future = MatchOr<M, P0, P1>;

    open spec fn admits(self, m: M, o: MatchOutcome<M, P0::Value, M::Error>) -> bool {
        match o {
            MatchOutcome::Matched(m2, v) => or_matched(self.first(), self.second(), m, m2, v),
            MatchOutcome::Failed(m2, e) => {
                ||| self.first().admits(m, MatchOutcome::Failed(m2, e))
                ||| or_failed(self.first(), self.second(), m, m2, e)
            },
        }
    }

    open spec fn pre(self) -> bool {
        self.first().pre() && self.second().pre()
    }

    fn async_match(self, matcher: M) -> (f: Self::Future) {
        let ghost gself = self;
        let (p0, p1) = self.unwrap();
        let sub = p0.async_match(matcher);
        let ghost gsub = sub;
        let r = MatchOr { state: Phase::A((sub, p1)) };
        proof {
            assert forall|o: MatchOutcome<M, P0::Value, M::Error>| r.admits(o) implies gself.admits(
                matcher,
                o,
            ) by {
                match o {
                    MatchOutcome::Matched(m2, v) => {
                        if !gsub.admits(MatchOutcome::Matched(m2, v)) {
                            let (m1, e0) = choose|m1: M, e0: M::Error|
                                #[trigger] gsub.admits(MatchOutcome::Failed(m1, e0))
                                    && gself.second().admits(m1, MatchOutcome::Matched(m2, v));
                            assert(gself.first().admits(matcher, MatchOutcome::Failed(m1, e0))
                                && gself.second().admits(m1, MatchOutcome::Matched(m2, v)));
                        }
                    },
                    MatchOutcome::Failed(m2, e) => {
                        if !gsub.admits(MatchOutcome::Failed(m2, e)) {
                            let (m1, e0) = choose|m1: M, e0: M::Error|
                                #[trigger] gsub.admits(MatchOutcome::Failed(m1, e0))
                                    && gself.second().admits(m1, MatchOutcome::Failed(m2, e));
                            assert(gself.first().admits(matcher, MatchOutcome::Failed(m1, e0))
                                && gself.second().admits(m1, MatchOutcome::Failed(m2, e)));
                        }
                    },
                }
            }
        }
        r
    }
}

/// Future to do pattern matching of the `Option` pattern: `Some` drives the
/// wrapped pattern's operation and wraps its value; `None` resolves
/// immediately without touching the matcher.
pub struct MatchOption<M: Matcher, P: AsyncMatch<M>> {
    state: Phase<P::Future, M>,
}

impl<M: Matcher, P: AsyncMatch<M>> MatchFuture<M> for MatchOption<M, P> {
    type Value = Option<P::Value>;

    closed spec fn done(&self) -> bool {
        self.state is Done
    }

    closed spec fn wf(&self) -> bool {
        match self.state {
            Phase::A(f0) => !f0.done() && f0.wf(),
            _ => true,
        }
    }

    closed spec fn ready(&self) -> bool {
        match self.state {
            Phase::A(f0) => f0.ready(),
            Phase::B(m) => m.always_ready(),
            Phase::Done => true,
        }
    }

    closed spec fn admits(&self, o: MatchOutcome<M, Option<P::Value>, M::Error>) -> bool {
        match self.state {
            Phase::A(f0) => match o {
                MatchOutcome::Matched(m2, v) => match v {
                    Some(v0) => f0.admits(MatchOutcome::Matched(m2, v0)),
                    None => false,
                },
                MatchOutcome::Failed(m2, e) => f0.admits(MatchOutcome::Failed(m2, e)),
            },
            Phase::B(m) => o == MatchOutcome::<M, Option<P::Value>, M::Error>::Matched(m, None),
            Phase::Done => false,
        }
    }

    fn poll(&mut self) -> (r: Result<Async<(M, Option<P::Value>)>, AsyncError<M, M::Error>>) {
        match self.state.take() {
            Phase::A(mut f0) => {
                match f0.poll() {
                    Ok(Async::Ready((m2, v0))) => Ok(Async::Ready((m2, Some(v0)))),
                    Ok(Async::NotReady) => {
                        self.state = Phase::A(f0);
                        Ok(Async::NotReady)
                    },
                    Err(e) => Err(e),
                }
            },
            Phase::B(m) => Ok(Async::Ready((m, None))),
            Phase::Done => vstd::pervasive::unreached(),
        }
    }
}

impl<P: Pattern> Pattern for Option<P> {
    type Value = Option<P::Value>;
}

/// `None` yields `None` immediately without touching the matcher; `Some`
/// drives the wrapped pattern and wraps its value.
impl<M: Matcher, P: AsyncMatch<M>> AsyncMatch<M> for Option<P> {
    type Future = MatchOption<M, P>;

    open spec fn admits(self, m: M, o: MatchOutcome<M, Option<P::Value>, M::Error>) -> bool {
        match self {
            Some(p) => match o {
                MatchOutcome::Matched(m2, v) => match v {
                    Some(v0) => p.admits(m, MatchOutcome::Matched(m2, v0)),
                    None => false,
                },
                MatchOutcome::Failed(m2, e) => p.admits(m, MatchOutcome::Failed(m2, e)),
            },
            None => o == MatchOutcome::<M, Option<P::Value>, M::Error>::Matched(m, None),
        }
    }

    open spec fn pre(self) -> bool {
        match self {
            Some(p) => p.pre(),
            None => true,
        }
    }

    fn async_match(self, matcher: M) -> (f: Self::Future) {
        match self {
            Some(p) => MatchOption { state: Phase::A(p.async_match(matcher)) },
            None => MatchOption { state: Phase::B(matcher) },
        }
    }
}

/// A recovery match resolved: the first pattern succeeded, or it failed and
/// the continuation picked a fallback pattern from the error, which
/// succeeded.
pub open spec fn or_else_matched<M: Matcher, P0: AsyncMatch<M>, P1, F>(
    p0: P0,
    f: F,
    m: M,
    m2: M,
    v: P0::Value,
) -> bool where P1: AsyncMatch<M, Value = P0::Value>, F: FnOnce(M::Error) -> P1 {
    ||| p0.admits(m, MatchOutcome::Matched(m2, v))
    ||| exists|m1: M, e0: M::Error, p1: P1|
        #![trigger p0.admits(m, MatchOutcome::Failed(m1, e0)), call_ensures(f, (e0,), p1)]
        {
            &&& p0.admits(m, MatchOutcome::Failed(m1, e0))
            &&& call_ensures(f, (e0,), p1)
            &&& p1.admits(m1, MatchOutcome::Matched(m2, v))
        }
}

/// A recovery match failed: the first pattern failed, and so did the
/// fallback pattern the continuation picked.
pub open spec fn or_else_failed<M: Matcher, P0: AsyncMatch<M>, P1, F>(
    p0: P0,
    f: F,
    m: M,
    m2: M,
    e: M::Error,
) -> bool where P1: AsyncMatch<M, Value = P0::Value>, F: FnOnce(M::Error) -> P1 {
    exists|m1: M, e0: M::Error, p1: P1|
        #![trigger p0.admits(m, MatchOutcome::Failed(m1, e0)), call_ensures(f, (e0,), p1)]
        {
            &&& p0.admits(m, MatchOutcome::Failed(m1, e0))
            &&& call_ensures(f, (e0,), p1)
            &&& p1.admits(m1, MatchOutcome::Failed(m2, e))
        }
}

/// Like [`or_else_matched`], for an in-flight first operation.
pub open spec fn or_else_fut_matched<M: Matcher, P0: AsyncMatch<M>, P1, F>(
    f0: P0::Future,
    f: F,
    m2: M,
    v: P0::Value,
) -> bool where P1: AsyncMatch<M, Value = P0::Value>, F: FnOnce(M::Error) -> P1 {
    ||| f0.admits(MatchOutcome::Matched(m2, v))
    ||| exists|m1: M, e0: M::Error, p1: P1|
        #![trigger f0.admits(MatchOutcome::Failed(m1, e0)), call_ensures(f, (e0,), p1)]
        {
            &&& f0.admits(MatchOutcome::Failed(m1, e0))
            &&& call_ensures(f, (e0,), p1)
            &&& p1.admits(m1, MatchOutcome::Matched(m2, v))
        }
}

/// Like [`or_else_failed`], for an in-flight first operation.
pub open spec fn or_else_fut_failed<M: Matcher, P0: AsyncMatch<M>, P1, F>(
    f0: P0::Future,
    f: F,
    m2: M,
    e: M::Error,
) -> bool where P1: AsyncMatch<M, Value = P0::Value>, F: FnOnce(M::Error) -> P1 {
    exists|m1: M, e0: M::Error, p1: P1|
        #![trigger f0.admits(MatchOutcome::Failed(m1, e0)), call_ensures(f, (e0,), p1)]
        {
            &&& f0.admits(MatchOutcome::Failed(m1, e0))
            &&& call_ensures(f, (e0,), p1)
            &&& p1.admits(m1, MatchOutcome::Failed(m2, e))
        }
}

/// Future to do pattern matching of the `OrElse` pattern: drives the first
/// operation; on failure, hands the error to the continuation and drives
/// the fallback pattern it picked.
pub struct MatchOrElse<M: Matcher, P0: AsyncMatch<M>, P1: AsyncMatch<M>, F> {
    state: Phase<(P0::Future, F), P1::Future>,
}

impl<M: Matcher, P0: AsyncMatch<M>, P1, F> MatchFuture<M> for MatchOrElse<M, P0, P1, F> where
    P1: AsyncMatch<M, Value = P0::Value>,
    F: FnOnce(M::Error) -> P1,
 {
    type Value = P0::Value;

    closed spec fn done(&self) -> bool {
        self.state is Done
    }

    closed spec fn wf(&self) -> bool {
        match self.state {
            Phase::A((f0, f)) => {
                &&& !f0.done()
                &&& f0.wf()
                &&& forall|e0: M::Error| call_requires(f, (e0,))
                &&& forall|e0: M::Error, p1: P1| call_ensures(f, (e0,), p1) ==> p1.pre()
            },
            Phase::B(f1) => !f1.done() && f1.wf(),
            Phase::Done => true,
        }
    }

    closed spec fn ready(&self) -> bool {
        match self.state {
            Phase::A((f0, f)) => f0.ready(),
            Phase::B(f1) => f1.ready(),
            Phase::Done => true,
        }
    }

    closed spec fn admits(&self, o: MatchOutcome<M, P0::Value, M::Error>) -> bool {
        match self.state {
            Phase::A((f0, f)) => match o {
                MatchOutcome::Matched(m2, v) => or_else_fut_matched::<M, P0, P1, F>(
                    f0,
                    f,
                    m2,
                    v,
                ),
                MatchOutcome::Failed(m2, e) => or_else_fut_failed::<M, P0, P1, F>(f0, f, m2, e),
            },
            Phase::B(f1) => f1.admits(o),
            Phase::Done => false,
        }
    }

    fn poll(&mut self) -> (r: Result<Async<(M, P0::Value)>, AsyncError<M, M::Error>>) {
        match self.state.take() {
            Phase::A((mut f0, f)) => {
                let ghost gf0 = f0;
                let ghost gf = f;
                match f0.poll() {
                    Ok(Async::Ready((m2, v))) => Ok(Async::Ready((m2, v))),
                    Ok(Async::NotReady) => {
                        self.state = Phase::A((f0, f));
                        Ok(Async::NotReady)
                    },
                    Err(e) => {
                        let (m1, e0) = e.unwrap();
                        let ghost gm1 = m1;
                        let ghost ge0 = e0;
                        let p1 = f(e0);
                        let ghost gp1 = p1;
                        let mut f1 = p1.async_match(m1);
                        match f1.poll() {
                            Ok(Async::Ready((m2, v))) => {
                                proof {
                                    assert(gf0.admits(MatchOutcome::Failed(gm1, ge0))
                                        && call_ensures(gf, (ge0,), gp1) && gp1.admits(
                                        gm1,
                                        MatchOutcome::Matched(m2, v),
                                    ));
                                    assert(or_else_fut_matched::<M, P0, P1, F>(gf0, gf, m2, v));
                                }
                                Ok(Async::Ready((m2, v)))
                            },
                            Ok(Async::NotReady) => {
                                proof {
                                    assert forall|o: MatchOutcome<M, P0::Value, M::Error>|
                                        f1.admits(o) implies old(self).admits(o) by {
                                        match o {
                                            MatchOutcome::Matched(m2, v) => {
                                                assert(gf0.admits(
                                                    MatchOutcome::Failed(gm1, ge0),
                                                ) && call_ensures(gf, (ge0,), gp1) && gp1.admits(
                                                    gm1,
                                                    MatchOutcome::Matched(m2, v),
                                                ));
                                                assert(or_else_fut_matched::<M, P0, P1, F>(
                                                    gf0,
                                                    gf,
                                                    m2,
                                                    v,
                                                ));
                                            },
                                            MatchOutcome::Failed(m2, e2) => {
                                                assert(gf0.admits(
                                                    MatchOutcome::Failed(gm1, ge0),
                                                ) && call_ensures(gf, (ge0,), gp1) && gp1.admits(
                                                    gm1,
                                                    MatchOutcome::Failed(m2, e2),
                                                ));
                                                assert(or_else_fut_failed::<M, P0, P1, F>(
                                                    gf0,
                                                    gf,
                                                    m2,
                                                    e2,
                                                ));
                                            },
                                        }
                                    }
                                }
                                self.state = Phase::B(f1);
                                Ok(Async::NotReady)
                            },
                            Err(e2) => {
                                proof {
                                    assert(gf0.admits(MatchOutcome::Failed(gm1, ge0))
                                        && call_ensures(gf, (ge0,), gp1) && gp1.admits(
                                        gm1,
                                        MatchOutcome::Failed(e2.spec_state(), e2.spec_error()),
                                    ));
                                    assert(or_else_fut_failed::<M, P0, P1, F>(
                                        gf0,
                                        gf,
                                        e2.spec_state(),
                                        e2.spec_error(),
                                    ));
                                }
                                Err(e2)
                            },
                        }
                    },
                }
            },
            Phase::B(mut f1) => {
                match f1.poll() {
                    Ok(Async::Ready((m2, v))) => Ok(Async::Ready((m2, v))),
                    Ok(Async::NotReady) => {
                        self.state = Phase::B(f1);
                        Ok(Async::NotReady)
                    },
                    Err(e) => Err(e),
                }
            },
            Phase::Done => vstd::pervasive::unreached(),
        }
    }
}

impl<M: Matcher, P0: AsyncMatch<M>, P1, F> AsyncMatch<M> for OrElse<P0, F, M::Error, P1> where
    P1: AsyncMatch<M, Value = P0::Value>,
    F: FnOnce(M::Error) -> P1,
 {
    type Future = MatchOrElse<M, P0, P1, F>;

    open spec fn admits(self, m: M, o: MatchOutcome<M, P0::Value, M::Error>) -> bool {
        match o {
            MatchOutcome::Matched(m2, v) => or_else_matched::<M, P0, P1, F>(
                self.pattern(),
                self.func(),
                m,
                m2,
                v,
            ),
            MatchOutcome::Failed(m2, e) => or_else_failed::<M, P0, P1, F>(
                self.pattern(),
                self.func(),
                m,
                m2,
                e,
            ),
        }
    }

    open spec fn pre(self) -> bool {
        &&& self.pattern().pre()
        &&& forall|e0: M::Error| call_requires(self.func(), (e0,))
        &&& forall|e0: M::Error, p1: P1| call_ensures(self.func(), (e0,), p1) ==> p1.pre()
    }

    fn async_match(self, matcher: M) -> (f: Self::Future) {
        let ghost gself = self;
        let (p0, f) = self.unwrap();
        let sub = p0.async_match(matcher);
        let ghost gsub = sub;
        let r = MatchOrElse { state: Phase::A((sub, f)) };
        proof {
            assert forall|o: MatchOutcome<M, P0::Value, M::Error>| r.admits(o) implies gself.admits(
                matcher,
                o,
            ) by {
                match o {
                    MatchOutcome::Matched(m2, v) => {
                        if !gsub.admits(MatchOutcome::Matched(m2, v)) {
                            let (m1, e0, p1) = choose|m1: M, e0: M::Error, p1: P1|
                                {
                                    &&& #[trigger] gsub.admits(MatchOutcome::Failed(m1, e0))
                                    &&& #[trigger] call_ensures(gself.func(), (e0,), p1)
                                    &&& p1.admits(m1, MatchOutcome::Matched(m2, v))
                                };
                            assert(gself.pattern().admits(matcher, MatchOutcome::Failed(m1, e0))
                                && call_ensures(gself.func(), (e0,), p1) && p1.admits(
                                m1,
                                MatchOutcome::Matched(m2, v),
                            ));
                        }
                    },
                    MatchOutcome::Failed(m2, e) => {
                        let (m1, e0, p1) = choose|m1: M, e0: M::Error, p1: P1|
                            {
                                &&& #[trigger] gsub.admits(MatchOutcome::Failed(m1, e0))
                                &&& #[trigger] call_ensures(gself.func(), (e0,), p1)
                                &&& p1.admits(m1, MatchOutcome::Failed(m2, e))
                            };
                        assert(gself.pattern().admits(matcher, MatchOutcome::Failed(m1, e0))
                            && call_ensures(gself.func(), (e0,), p1) && p1.admits(
                            m1,
                            MatchOutcome::Failed(m2, e),
                        ));
                    },
                }
            }
        }
        r
    }
}

/// The first pattern's operation concluded with `arg` — a value or an
/// error — handing the matcher on as `m1`.
pub open spec fn then_arg<M: Matcher, P0: AsyncMatch<M>>(
    p0: P0,
    m: M,
    m1: M,
    arg: Result<P0::Value, M::Error>,
) -> bool {
    match arg {
        Ok(v0) => p0.admits(m, MatchOutcome::Matched(m1, v0)),
        Err(e0) => p0.admits(m, MatchOutcome::Failed(m1, e0)),
    }
}

/// Like [`then_arg`], for an in-flight first operation.
pub open spec fn then_fut_arg<M: Matcher, P0: AsyncMatch<M>>(
    f0: P0::Future,
    m1: M,
    arg: Result<P0::Value, M::Error>,
) -> bool {
    match arg {
        Ok(v0) => f0.admits(MatchOutcome::Matched(m1, v0)),
        Err(e0) => f0.admits(MatchOutcome::Failed(m1, e0)),
    }
}

/// A sequenced match resolved: the first pattern concluded either way, the
/// continuation picked the next pattern from its result, and that pattern
/// resolved.
pub open spec fn then_matched<M: Matcher, P0: AsyncMatch<M>, P1: AsyncMatch<M>, F>(
    p0: P0,
    f: F,
    m: M,
    m2: M,
    v: P1::Value,
) -> bool where F: FnOnce(Result<P0::Value, M::Error>) -> P1 {
    exists|m1: M, arg: Result<P0::Value, M::Error>, p1: P1|
        #![trigger then_arg::<M, P0>(p0, m, m1, arg), call_ensures(f, (arg,), p1)]
        {
            &&& then_arg::<M, P0>(p0, m, m1, arg)
            &&& call_ensures(f, (arg,), p1)
            &&& p1.admits(m1, MatchOutcome::Matched(m2, v))
        }
}

/// A sequenced match failed: the pattern the continuation picked failed.
pub open spec fn then_failed<M: Matcher, P0: AsyncMatch<M>, P1: AsyncMatch<M>, F>(
    p0: P0,
    f: F,
    m: M,
    m2: M,
    e: M::Error,
) -> bool where F: FnOnce(Result<P0::Value, M::Error>) -> P1 {
    exists|m1: M, arg: Result<P0::Value, M::Error>, p1: P1|
        #![trigger then_arg::<M, P0>(p0, m, m1, arg), call_ensures(f, (arg,), p1)]
        {
            &&& then_arg::<M, P0>(p0, m, m1, arg)
            &&& call_ensures(f, (arg,), p1)
            &&& p1.admits(m1, MatchOutcome::Failed(m2, e))
        }
}

/// Like [`then_matched`], for an in-flight first operation.
pub open spec fn then_fut_matched<M: Matcher, P0: AsyncMatch<M>, P1: AsyncMatch<M>, F>(
    f0: P0::Future,
    f: F,
    m2: M,
    v: P1::Value,
) -> bool where F: FnOnce(Result<P0::Value, M::Error>) -> P1 {
    exists|m1: M, arg: Result<P0::Value, M::Error>, p1: P1|
        #![trigger then_fut_arg::<M, P0>(f0, m1, arg), call_ensures(f, (arg,), p1)]
        {
            &&& then_fut_arg::<M, P0>(f0, m1, arg)
            &&& call_ensures(f, (arg,), p1)
            &&& p1.admits(m1, MatchOutcome::Matched(m2, v))
        }
}

/// Like [`then_failed`], for an in-flight first operation.
pub open spec fn then_fut_failed<M: Matcher, P0: AsyncMatch<M>, P1: AsyncMatch<M>, F>(
    f0: P0::Future,
    f: F,
    m2: M,
    e: M::Error,
) -> bool where F: FnOnce(Result<P0::Value, M::Error>) -> P1 {
    exists|m1: M, arg: Result<P0::Value, M::Error>, p1: P1|
        #![trigger then_fut_arg::<M, P0>(f0, m1, arg), call_ensures(f, (arg,), p1)]
        {
            &&& then_fut_arg::<M, P0>(f0, m1, arg)
            &&& call_ensures(f, (arg,), p1)
            &&& p1.admits(m1, MatchOutcome::Failed(m2, e))
        }
}

/// Future to do pattern matching of the `Then` pattern: drives the first
/// operation, hands its whole result — success or failure — to the
/// continuation, and drives the pattern it picked.  This is the primary
/// local-recovery mechanism.
pub struct MatchThen<M: Matcher, P0: AsyncMatch<M>, P1: AsyncMatch<M>, F> {
    state: Phase<(P0::Future, F), P1::Future>,
}

impl<M: Matcher, P0: AsyncMatch<M>, P1: AsyncMatch<M>, F> MatchFuture<M> for MatchThen<
    M,
    P0,
    P1,
    F,
> where F: FnOnce(Result<P0::Value, M::Error>) -> P1 {
    type Value = P1::Value;

    closed spec fn done(&self) -> bool {
        self.state is Done
    }

    closed spec fn wf(&self) -> bool {
        match self.state {
            Phase::A((f0, f)) => {
                &&& !f0.done()
                &&& f0.wf()
                &&& forall|arg: Result<P0::Value, M::Error>| call_requires(f, (arg,))
                &&& forall|arg: Result<P0::Value, M::Error>, p1: P1|
                    call_ensures(f, (arg,), p1) ==> p1.pre()
            },
            Phase::B(f1) => !f1.done() && f1.wf(),
            Phase::Done => true,
        }
    }

    closed spec fn ready(&self) -> bool {
        match self.state {
            Phase::A((f0, f)) => f0.ready(),
            Phase::B(f1) => f1.ready(),
            Phase::Done => true,
        }
    }

    closed spec fn admits(&self, o: MatchOutcome<M, P1::Value, M::Error>) -> bool {
        match self.state {
            Phase::A((f0, f)) => match o {
                MatchOutcome::Matched(m2, v) => then_fut_matched::<M, P0, P1, F>(f0, f, m2, v),
                MatchOutcome::Failed(m2, e) => then_fut_failed::<M, P0, P1, F>(f0, f, m2, e),
            },
            Phase::B(f1) => f1.admits(o),
            Phase::Done => false,
        }
    }

    fn poll(&mut self) -> (r: Result<Async<(M, P1::Value)>, AsyncError<M, M::Error>>) {
        match self.state.take() {
            Phase::A((mut f0, f)) => {
                let ghost gf0 = f0;
                let ghost gf = f;
                let step = match f0.poll() {
                    Ok(Async::Ready((m1, v0))) => Some((m1, Ok(v0))),
                    Ok(Async::NotReady) => None,
                    Err(e) => {
                        let (m1, e0) = e.unwrap();
                        Some((m1, Err(e0)))
                    },
                };
                match step {
                    None => {
                        proof {
                            assert forall|o: MatchOutcome<M, P1::Value, M::Error>|
                                (match o {
                                    MatchOutcome::Matched(m2, v) => then_fut_matched::<
                                        M,
                                        P0,
                                        P1,
                                        F,
                                    >(f0, f, m2, v),
                                    MatchOutcome::Failed(m2, e) => then_fut_failed::<
                                        M,
                                        P0,
                                        P1,
                                        F,
                                    >(f0, f, m2, e),
                                }) implies old(self).admits(o) by {
                                match o {
                                    MatchOutcome::Matched(m2, v) => {
                                        let (m1, arg, p1) = choose|
                                            m1: M,
                                            arg: Result<P0::Value, M::Error>,
                                            p1: P1,
                                        |
                                            {
                                                &&& #[trigger] then_fut_arg::<M, P0>(
                                                    f0,
                                                    m1,
                                                    arg,
                                                )
                                                &&& #[trigger] call_ensures(f, (arg,), p1)
                                                &&& p1.admits(m1, MatchOutcome::Matched(m2, v))
                                            };
                                        assert(then_fut_arg::<M, P0>(gf0, m1, arg)
                                            && call_ensures(gf, (arg,), p1) && p1.admits(
                                            m1,
                                            MatchOutcome::Matched(m2, v),
                                        ));
                                        assert(then_fut_matched::<M, P0, P1, F>(
                                            gf0,
                                            gf,
                                            m2,
                                            v,
                                        ));
                                    },
                                    MatchOutcome::Failed(m2, e) => {
                                        let (m1, arg, p1) = choose|
                                            m1: M,
                                            arg: Result<P0::Value, M::Error>,
                                            p1: P1,
                                        |
                                            {
                                                &&& #[trigger] then_fut_arg::<M, P0>(
                                                    f0,
                                                    m1,
                                                    arg,
                                                )
                                                &&& #[trigger] call_ensures(f, (arg,), p1)
                                                &&& p1.admits(m1, MatchOutcome::Failed(m2, e))
                                            };
                                        assert(then_fut_arg::<M, P0>(gf0, m1, arg)
                                            && call_ensures(gf, (arg,), p1) && p1.admits(
                                            m1,
                                            MatchOutcome::Failed(m2, e),
                                        ));
                                        assert(then_fut_failed::<M, P0, P1, F>(gf0, gf, m2, e));
                                    },
                                }
                            }
                        }
                        self.state = Phase::A((f0, f));
                        Ok(Async::NotReady)
                    },
                    Some((m1, arg)) => {
                        let ghost gm1 = m1;
                        let ghost garg = arg;
                        proof {
                            assert(then_fut_arg::<M, P0>(gf0, gm1, garg));
                        }
                        let p1 = f(arg);
                        let ghost gp1 = p1;
                        let mut f1 = p1.async_match(m1);
                        match f1.poll() {
                            Ok(Async::Ready((m2, v1))) => {
                                proof {
                                    assert(then_fut_arg::<M, P0>(gf0, gm1, garg) && call_ensures(
                                        gf,
                                        (garg,),
                                        gp1,
                                    ) && gp1.admits(gm1, MatchOutcome::Matched(m2, v1)));
                                    assert(then_fut_matched::<M, P0, P1, F>(gf0, gf, m2, v1));
                                }
                                Ok(Async::Ready((m2, v1)))
                            },
                            Ok(Async::NotReady) => {
                                proof {
                                    assert forall|o: MatchOutcome<M, P1::Value, M::Error>|
                                        f1.admits(o) implies old(self).admits(o) by {
                                        match o {
                                            MatchOutcome::Matched(m2, v) => {
                                                assert(then_fut_arg::<M, P0>(gf0, gm1, garg)
                                                    && call_ensures(gf, (garg,), gp1)
                                                    && gp1.admits(
                                                    gm1,
                                                    MatchOutcome::Matched(m2, v),
                                                ));
                                                assert(then_fut_matched::<M, P0, P1, F>(
                                                    gf0,
                                                    gf,
                                                    m2,
                                                    v,
                                                ));
                                            },
                                            MatchOutcome::Failed(m2, e2) => {
                                                assert(then_fut_arg::<M, P0>(gf0, gm1, garg)
                                                    && call_ensures(gf, (garg,), gp1)
                                                    && gp1.admits(
                                                    gm1,
                                                    MatchOutcome::Failed(m2, e2),
                                                ));
                                                assert(then_fut_failed::<M, P0, P1, F>(
                                                    gf0,
                                                    gf,
                                                    m2,
                                                    e2,
                                                ));
                                            },
                                        }
                                    }
                                }
                                self.state = Phase::B(f1);
                                Ok(Async::NotReady)
                            },
                            Err(e2) => {
                                proof {
                                    assert(then_fut_arg::<M, P0>(gf0, gm1, garg) && call_ensures(
                                        gf,
                                        (garg,),
                                        gp1,
                                    ) && gp1.admits(
                                        gm1,
                                        MatchOutcome::Failed(e2.spec_state(), e2.spec_error()),
                                    ));
                                    assert(then_fut_failed::<M, P0, P1, F>(
                                        gf0,
                                        gf,
                                        e2.spec_state(),
                                        e2.spec_error(),
                                    ));
                                }
                                Err(e2)
                            },
                        }
                    },
                }
            },
            Phase::B(mut f1) => {
                match f1.poll() {
                    Ok(Async::Ready((m2, v1))) => Ok(Async::Ready((m2, v1))),
                    Ok(Async::NotReady) => {
                        self.state = Phase::B(f1);
                        Ok(Async::NotReady)
                    },
                    Err(e) => Err(e),
                }
            },
            Phase::Done => vstd::pervasive::unreached(),
        }
    }
}

impl<M: Matcher, P0: AsyncMatch<M>, P1: AsyncMatch<M>, F> AsyncMatch<M> for Then<
    P0,
    F,
    M::Error,
    P1,
> where F: FnOnce(Result<P0::Value, M::Error>) -> P1 {
    type Future = MatchThen<M, P0, P1, F>;

    open spec fn admits(self, m: M, o: MatchOutcome<M, P1::Value, M::Error>) -> bool {
        match o {
            MatchOutcome::Matched(m2, v) => then_matched::<M, P0, P1, F>(
                self.pattern(),
                self.func(),
                m,
                m2,
                v,
            ),
            MatchOutcome::Failed(m2, e) => then_failed::<M, P0, P1, F>(
                self.pattern(),
                self.func(),
                m,
                m2,
                e,
            ),
        }
    }

    open spec fn pre(self) -> bool {
        &&& self.pattern().pre()
        &&& forall|arg: Result<P0::Value, M::Error>| call_requires(self.func(), (arg,))
        &&& forall|arg: Result<P0::Value, M::Error>, p1: P1|
            call_ensures(self.func(), (arg,), p1) ==> p1.pre()
    }

    fn async_match(self, matcher: M) -> (f: Self::Future) {
        let ghost gself = self;
        let (p0, f) = self.unwrap();
        let sub = p0.async_match(matcher);
        let ghost gsub = sub;
        let r = MatchThen { state: Phase::A((sub, f)) };
        proof {
            assert forall|o: MatchOutcome<M, P1::Value, M::Error>| r.admits(o) implies gself.admits(
                matcher,
                o,
            ) by {
                match o {
                    MatchOutcome::Matched(m2, v) => {
                        let (m1, arg, p1) = choose|
                            m1: M,
                            arg: Result<P0::Value, M::Error>,
                            p1: P1,
                        |
                            {
                                &&& #[trigger] then_fut_arg::<M, P0>(gsub, m1, arg)
                                &&& #[trigger] call_ensures(gself.func(), (arg,), p1)
                                &&& p1.admits(m1, MatchOutcome::Matched(m2, v))
                            };
                        assert(then_arg(gself.pattern(), matcher, m1, arg) && call_ensures(
                            gself.func(),
                            (arg,),
                            p1,
                        ) && p1.admits(m1, MatchOutcome::Matched(m2, v)));
                    },
                    MatchOutcome::Failed(m2, e) => {
                        let (m1, arg, p1) = choose|
                            m1: M,
                            arg: Result<P0::Value, M::Error>,
                            p1: P1,
                        |
                            {
                                &&& #[trigger] then_fut_arg::<M, P0>(gsub, m1, arg)
                                &&& #[trigger] call_ensures(gself.func(), (arg,), p1)
                                &&& p1.admits(m1, MatchOutcome::Failed(m2, e))
                            };
                        assert(then_arg(gself.pattern(), matcher, m1, arg) && call_ensures(
                            gself.func(),
                            (arg,),
                            p1,
                        ) && p1.admits(m1, MatchOutcome::Failed(m2, e)));
                    },
                }
            }
        }
        r
    }
}


/// A branch operation simply forwards to whichever alternative was selected
/// at bind time; no re-selection ever occurs.
impl<M: Matcher, A: MatchFuture<M>, B: MatchFuture<M, Value = A::Value>, C: MatchFuture<M, Value = A::Value>, D: MatchFuture<M, Value = A::Value>, E: MatchFuture<M, Value = A::Value>, F: MatchFuture<M, Value = A::Value>, G: MatchFuture<M, Value = A::Value>, H: MatchFuture<M, Value = A::Value>> MatchFuture<M> for Branch<A, B, C, D, E, F, G, H> {
    type Value = A::Value;

    closed spec fn done(&self) -> bool {
        match self {
            Branch::A(f) => f.done(),
            Branch::B(f) => f.done(),
            Branch::C(f) => f.done(),
            Branch::D(f) => f.done(),
            Branch::E(f) => f.done(),
            Branch::F(f) => f.done(),
            Branch::G(f) => f.done(),
            Branch::H(f) => f.done(),
        }
    }

    closed spec fn wf(&self) -> bool {
        match self {
            Branch::A(f) => !f.done() && f.wf(),
            Branch::B(f) => !f.done() && f.wf(),
            Branch::C(f) => !f.done() && f.wf(),
            Branch::D(f) => !f.done() && f.wf(),
            Branch::E(f) => !f.done() && f.wf(),
            Branch::F(f) => !f.done() && f.wf(),
            Branch::G(f) => !f.done() && f.wf(),
            Branch::H(f) => !f.done() && f.wf(),
        }
    }

    closed spec fn ready(&self) -> bool {
        match self {
            Branch::A(f) => f.ready(),
            Branch::B(f) => f.ready(),
            Branch::C(f) => f.ready(),
            Branch::D(f) => f.ready(),
            Branch::E(f) => f.ready(),
            Branch::F(f) => f.ready(),
            Branch::G(f) => f.ready(),
            Branch::H(f) => f.ready(),
        }
    }

    closed spec fn admits(&self, o: MatchOutcome<M, A::Value, M::Error>) -> bool {
        match self {
            Branch::A(f) => f.admits(o),
            Branch::B(f) => f.admits(o),
            Branch::C(f) => f.admits(o),
            Branch::D(f) => f.admits(o),
            Branch::E(f) => f.admits(o),
            Branch::F(f) => f.admits(o),
            Branch::G(f) => f.admits(o),
            Branch::H(f) => f.admits(o),
        }
    }

    fn poll(&mut self) -> (r: Result<Async<(M, A::Value)>, AsyncError<M, M::Error>>) {
        match self {
            Branch::A(f) => f.poll(),
            Branch::B(f) => f.poll(),
            Branch::C(f) => f.poll(),
            Branch::D(f) => f.poll(),
            Branch::E(f) => f.poll(),
            Branch::F(f) => f.poll(),
            Branch::G(f) => f.poll(),
            Branch::H(f) => f.poll(),
        }
    }
}

/// A branch pattern admits exactly what its selected alternative admits.
impl<M: Matcher, A: AsyncMatch<M>, B: AsyncMatch<M, Value = A::Value>, C: AsyncMatch<M, Value = A::Value>, D: AsyncMatch<M, Value = A::Value>, E: AsyncMatch<M, Value = A::Value>, F: AsyncMatch<M, Value = A::Value>, G: AsyncMatch<M, Value = A::Value>, H: AsyncMatch<M, Value = A::Value>> AsyncMatch<M> for Branch<A, B, C, D, E, F, G, H> {
    type Future = Branch<A::Future, B::Future, C::Future, D::Future, E::Future, F::Future, G::Future, H::Future>;

    open spec fn admits(self, m: M, o: MatchOutcome<M, A::Value, M::Error>) -> bool {
        match self {
            Branch::A(p) => p.admits(m, o),
            Branch::B(p) => p.admits(m, o),
            Branch::C(p) => p.admits(m, o),
            Branch::D(p) => p.admits(m, o),
            Branch::E(p) => p.admits(m, o),
            Branch::F(p) => p.admits(m, o),
            Branch::G(p) => p.admits(m, o),
            Branch::H(p) => p.admits(m, o),
        }
    }

    open spec fn pre(self) -> bool {
        match self {
            Branch::A(p) => p.pre(),
            Branch::B(p) => p.pre(),
            Branch::C(p) => p.pre(),
            Branch::D(p) => p.pre(),
            Branch::E(p) => p.pre(),
            Branch::F(p) => p.pre(),
            Branch::G(p) => p.pre(),
            Branch::H(p) => p.pre(),
        }
    }

    fn async_match(self, matcher: M) -> (f: Self::Future) {
        match self {
            Branch::A(p) => Branch::A(p.async_match(matcher)),
            Branch::B(p) => Branch::B(p.async_match(matcher)),
            Branch::C(p) => Branch::C(p.async_match(matcher)),
            Branch::D(p) => Branch::D(p.async_match(matcher)),
            Branch::E(p) => Branch::E(p.async_match(matcher)),
            Branch::F(p) => Branch::F(p.async_match(matcher)),
            Branch::G(p) => Branch::G(p.async_match(matcher)),
            Branch::H(p) => Branch::H(p.async_match(matcher)),
        }
    }
}

/// The outcomes of matching a sequence of patterns from matcher `m` in
/// order, discarding the values; a failure of any pattern is the failure of
/// the whole sequence.
pub open spec fn iter_admits<M: Matcher, P: AsyncMatch<M>>(
    ps: Seq<P>,
    m: M,
    o: MatchOutcome<M, (), M::Error>,
) -> bool
    decreases ps.len(),
{
    if ps.len() == 0 {
        o == MatchOutcome::<M, (), M::Error>::Matched(m, ())
    } else {
        ||| exists|m1: M, v0: P::Value|
            #[trigger] ps[0].admits(m, MatchOutcome::Matched(m1, v0)) && iter_admits(
                ps.skip(1),
                m1,
                o,
            )
        ||| match o {
            MatchOutcome::Failed(m2, e) => ps[0].admits(m, MatchOutcome::Failed(m2, e)),
            MatchOutcome::Matched(_, _) => false,
        }
    }
}

/// Future to do pattern matching of the `Iter` pattern: drives each pattern
/// of the sequence in order, discarding the values.
pub struct MatchIter<M: Matcher, P: AsyncMatch<M>> {
    state: Phase<(P::Future, Vec<P>), M>,
}

impl<M: Matcher, P: AsyncMatch<M>> MatchFuture<M> for MatchIter<M, P> {
    type Value = ();

    closed spec fn done(&self) -> bool {
        self.state is Done
    }

    closed spec fn wf(&self) -> bool {
        match self.state {
            Phase::A((fut, ps)) => {
                &&& !fut.done()
                &&& fut.wf()
                &&& forall|i: int| 0 <= i < ps@.len() ==> #[trigger] ps@[i].pre()
            },
            _ => true,
        }
    }

    closed spec fn ready(&self) -> bool {
        match self.state {
            Phase::A((fut, ps)) => fut.ready(),
            Phase::B(m) => m.always_ready(),
            Phase::Done => true,
        }
    }

    closed spec fn admits(&self, o: MatchOutcome<M, (), M::Error>) -> bool {
        match self.state {
            Phase::A((fut, ps)) => {
                ||| exists|m1: M, v0: P::Value|
                    #[trigger] fut.admits(MatchOutcome::Matched(m1, v0)) && iter_admits(
                        ps@,
                        m1,
                        o,
                    )
                ||| match o {
                    MatchOutcome::Failed(m2, e) => fut.admits(MatchOutcome::Failed(m2, e)),
                    MatchOutcome::Matched(_, _) => false,
                }
            },
            Phase::B(m) => o == MatchOutcome::<M, (), M::Error>::Matched(m, ()),
            Phase::Done => false,
        }
    }

    fn poll(&mut self) -> (r: Result<Async<(M, ())>, AsyncError<M, M::Error>>) {
        match self.state.take() {
            Phase::B(m) => Ok(Async::Ready((m, ()))),
            Phase::A((fut0, ps0)) => {
                let mut fut = fut0;
                let mut ps = ps0;
                loop
                    invariant
                        !fut.done(),
                        fut.wf(),
                        forall|i: int| 0 <= i < ps@.len() ==> #[trigger] ps@[i].pre(),
                        fut.ready() == old(self).ready(),
                        forall|o: MatchOutcome<M, (), M::Error>|
                            ((exists|m1: M, v0: P::Value|
                                #[trigger] fut.admits(MatchOutcome::Matched(m1, v0))
                                    && iter_admits(ps@, m1, o)) || (match o {
                                MatchOutcome::Failed(m2, e) => fut.admits(
                                    MatchOutcome::Failed(m2, e),
                                ),
                                MatchOutcome::Matched(_, _) => false,
                            })) ==> old(self).admits(o),
                        self.done(),
                    decreases ps@.len(),
                {
                    let ghost gfut = fut;
                    match fut.poll() {
                        Ok(Async::NotReady) => {
                            proof {
                                assert forall|o: MatchOutcome<M, (), M::Error>|
                                    ((exists|m1: M, v0: P::Value|
                                        #[trigger] fut.admits(MatchOutcome::Matched(m1, v0))
                                            && iter_admits(ps@, m1, o)) || (match o {
                                        MatchOutcome::Failed(m2, e) => fut.admits(
                                            MatchOutcome::Failed(m2, e),
                                        ),
                                        MatchOutcome::Matched(_, _) => false,
                                    })) implies old(self).admits(o) by {
                                    if exists|m1: M, v0: P::Value|
                                        #[trigger] fut.admits(MatchOutcome::Matched(m1, v0))
                                            && iter_admits(ps@, m1, o) {
                                        let (m1, v0) = choose|m1: M, v0: P::Value|
                                            #[trigger] fut.admits(MatchOutcome::Matched(m1, v0))
                                                && iter_admits(ps@, m1, o);
                                        assert(gfut.admits(MatchOutcome::Matched(m1, v0))
                                            && iter_admits(ps@, m1, o));
                                    }
                                }
                            }
                            self.state = Phase::A((fut, ps));
                            return Ok(Async::NotReady);
                        },
                        Err(e) => {
                            return Err(e);
                        },
                        Ok(Async::Ready((m1, v0))) => {
                            let ghost gm1 = m1;
                            let ghost gv0 = v0;
                            if ps.len() == 0 {
                                proof {
                                    assert(iter_admits(ps@, gm1, MatchOutcome::<
                                        M,
                                        (),
                                        M::Error,
                                    >::Matched(gm1, ())));
                                    assert(gfut.admits(MatchOutcome::Matched(gm1, gv0)));
                                }
                                return Ok(Async::Ready((m1, ())));
                            } else {
                                let ghost gps = ps@;
                                let p = ps.remove(0);
                                fut = p.async_match(m1);
                                proof {
                                    assert(ps@ =~= gps.skip(1));
                                    assert forall|o: MatchOutcome<M, (), M::Error>|
                                        ((exists|m1b: M, v0b: P::Value|
                                            #[trigger] fut.admits(
                                                MatchOutcome::Matched(m1b, v0b),
                                            ) && iter_admits(ps@, m1b, o)) || (match o {
                                            MatchOutcome::Failed(m2, e) => fut.admits(
                                                MatchOutcome::Failed(m2, e),
                                            ),
                                            MatchOutcome::Matched(_, _) => false,
                                        })) implies old(self).admits(o) by {
                                        if exists|m1b: M, v0b: P::Value|
                                            #[trigger] fut.admits(
                                                MatchOutcome::Matched(m1b, v0b),
                                            ) && iter_admits(ps@, m1b, o) {
                                            let (m1b, v0b) = choose|m1b: M, v0b: P::Value|
                                                #[trigger] fut.admits(
                                                    MatchOutcome::Matched(m1b, v0b),
                                                ) && iter_admits(ps@, m1b, o);
                                            assert(gps[0].admits(
                                                gm1,
                                                MatchOutcome::Matched(m1b, v0b),
                                            ));
                                            assert(iter_admits(gps, gm1, o));
                                            assert(gfut.admits(MatchOutcome::Matched(gm1, gv0)));
                                        } else {
                                            match o {
                                                MatchOutcome::Failed(m2, e) => {
                                                    if fut.admits(MatchOutcome::Failed(m2, e)) {
                                                        assert(gps[0].admits(
                                                            gm1,
                                                            MatchOutcome::Failed(m2, e),
                                                        ));
                                                        assert(iter_admits(gps, gm1, o));
                                                        assert(gfut.admits(
                                                            MatchOutcome::Matched(gm1, gv0),
                                                        ));
                                                    }
                                                },
                                                MatchOutcome::Matched(_, _) => {},
                                            }
                                        }
                                    }
                                }
                            }
                        },
                    }
                }
            },
            Phase::Done => vstd::pervasive::unreached(),
        }
    }
}

/// A sequence pattern matches each of its patterns in order, discarding the
/// values.
impl<M: Matcher, P: AsyncMatch<M>> AsyncMatch<M> for Iter<P> {
    type Future = MatchIter<M, P>;

    open spec fn admits(self, m: M, o: MatchOutcome<M, (), M::Error>) -> bool {
        iter_admits(self.0@, m, o)
    }

    open spec fn pre(self) -> bool {
        forall|i: int| 0 <= i < self.0@.len() ==> #[trigger] self.0@[i].pre()
    }

    fn async_match(self, matcher: M) -> (f: Self::Future) {
        let ghost gself = self;
        let mut ps = self.0;
        if ps.len() == 0 {
            MatchIter { state: Phase::B(matcher) }
        } else {
            let ghost gps = ps@;
            let p = ps.remove(0);
            let sub = p.async_match(matcher);
            let ghost gsub = sub;
            let r = MatchIter { state: Phase::A((sub, ps)) };
            proof {
                assert(ps@ =~= gps.skip(1));
                assert forall|o: MatchOutcome<M, (), M::Error>| r.admits(o) implies gself.admits(
                    matcher,
                    o,
                ) by {
                    if exists|m1: M, v0: P::Value|
                        #[trigger] gsub.admits(MatchOutcome::Matched(m1, v0)) && iter_admits(
                            ps@,
                            m1,
                            o,
                        ) {
                        let (m1, v0) = choose|m1: M, v0: P::Value|
                            #[trigger] gsub.admits(MatchOutcome::Matched(m1, v0)) && iter_admits(
                                ps@,
                                m1,
                                o,
                            );
                        assert(gps[0].admits(matcher, MatchOutcome::Matched(m1, v0)));
                        assert(iter_admits(gps, matcher, o));
                    } else {
                        match o {
                            MatchOutcome::Failed(m2, e) => {
                                if gsub.admits(MatchOutcome::Failed(m2, e)) {
                                    assert(gps[0].admits(matcher, MatchOutcome::Failed(m2, e)));
                                    assert(iter_admits(gps, matcher, o));
                                }
                            },
                            MatchOutcome::Matched(_, _) => {},
                        }
                    }
                }
            }
            r
        }
    }
}

} // verus!
