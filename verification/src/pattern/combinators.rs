//! Patterns which combine other patterns.

use vstd::prelude::*;
use crate::pattern::Pattern;

verus! {

/// A pattern for the `map` combinator, mapping a value of a pattern to
/// another value.
pub struct Mapped<P, F> {
    p: P,
    f: F,
}

impl<P, F> Mapped<P, F> {
    /// The wrapped pattern.
    pub closed spec fn pattern(self) -> P {
        self.p
    }

    /// The transform applied to the wrapped pattern's value.
    pub closed spec fn func(self) -> F {
        self.f
    }

    /// Takes the pattern apart.
    pub fn unwrap(self) -> (r: (P, F))
        ensures
            r.0 == self.pattern(),
            r.1 == self.func(),
    {
        (self.p, self.f)
    }
}

impl<P: Pattern, F, U> Pattern for Mapped<P, F> where F: FnOnce(P::Value) -> U {
    type Value = U;
}

/// Creates a `Mapped` pattern: `f` is applied to the value `pattern` produces.
pub fn map<P, F>(pattern: P, f: F) -> (r: Mapped<P, F>)
    ensures
        r.pattern() == pattern,
        r.func() == f,
{
    Mapped { p: pattern, f }
}

/// A pattern which marks `T` as a little-endian value.
///
/// This pattern is created by calling the `Endian::le` method.
#[derive(Debug, Clone, Copy)]
pub struct LE<T>(pub T);

/// A pattern which marks `T` as a big-endian value.
///
/// This pattern is created by calling the `Endian::be` method.
#[derive(Debug, Clone, Copy)]
pub struct BE<T>(pub T);

impl<T: Pattern> Pattern for LE<T> {
    type Value = T::Value;
}

impl<T: Pattern> Pattern for BE<T> {
    type Value = T::Value;
}

/// A pattern for the `chain` combinator: both sub-patterns in sequence, the
/// value is the pair of their values.
pub struct Chain<P0, P1> {
    p0: P0,
    p1: P1,
}

impl<P0, P1> Chain<P0, P1> {
    /// The first sub-pattern.
    pub closed spec fn first(self) -> P0 {
        self.p0
    }

    /// The second sub-pattern.
    pub closed spec fn second(self) -> P1 {
        self.p1
    }

    /// Takes the pattern apart.
    pub fn unwrap(self) -> (r: (P0, P1))
        ensures
            r.0 == self.first(),
            r.1 == self.second(),
    {
        (self.p0, self.p1)
    }

    /// Borrows both sub-patterns.
    pub fn inner_ref(&self) -> (r: (&P0, &P1))
        ensures
            *r.0 == self.first(),
            *r.1 == self.second(),
    {
        (&self.p0, &self.p1)
    }
}

impl<P0: Pattern, P1: Pattern> Pattern for Chain<P0, P1> {
    type Value = (P0::Value, P1::Value);
}

/// Creates a `Chain` pattern over the two patterns in sequence.
pub fn chain<P0, P1>(p0: P0, p1: P1) -> (r: Chain<P0, P1>)
    ensures
        r.first() == p0,
        r.second() == p1,
{
    Chain { p0, p1 }
}

/// A pattern for the `and_then` combinator: on success of the wrapped
/// pattern, the continuation picks the next pattern (of type `Q`) from the
/// value.
pub struct AndThen<P, F, Q> {
    p: P,
    f: F,
    next: core::marker::PhantomData<Q>,
}

impl<P, F, Q> AndThen<P, F, Q> {
    /// The wrapped pattern.
    pub closed spec fn pattern(self) -> P {
        self.p
    }

    /// The continuation applied to the wrapped pattern's value.
    pub closed spec fn func(self) -> F {
        self.f
    }

    /// Takes the pattern apart.
    pub fn unwrap(self) -> (r: (P, F))
        ensures
            r.0 == self.pattern(),
            r.1 == self.func(),
    {
        (self.p, self.f)
    }
}

impl<P0: Pattern, P1: Pattern, F> Pattern for AndThen<P0, F, P1> where
    F: FnOnce(P0::Value) -> P1,
 {
    type Value = P1::Value;
}

/// Creates an `AndThen` pattern: on success of `pattern`, `f` picks the next
/// pattern from the value.
pub fn and_then<P, F, Q>(pattern: P, f: F) -> (r: AndThen<P, F, Q>)
    ensures
        r.pattern() == pattern,
        r.func() == f,
{
    AndThen { p: pattern, f, next: core::marker::PhantomData }
}

/// A pattern for the `then` combinator: the continuation receives the
/// wrapped pattern's whole result, success or failure, and picks the next
/// pattern — the primary local-recovery mechanism.
pub struct Then<P, F, E, Q> {
    p: P,
    f: F,
    error: core::marker::PhantomData<E>,
    next: core::marker::PhantomData<Q>,
}

impl<P, F, E, Q> Then<P, F, E, Q> {
    /// The wrapped pattern.
    pub closed spec fn pattern(self) -> P {
        self.p
    }

    /// The continuation applied to the wrapped pattern's result.
    pub closed spec fn func(self) -> F {
        self.f
    }

    /// Takes the pattern apart.
    pub fn unwrap(self) -> (r: (P, F))
        ensures
            r.0 == self.pattern(),
            r.1 == self.func(),
    {
        (self.p, self.f)
    }
}

impl<P0: Pattern, P1: Pattern, F, E> Pattern for Then<P0, F, E, P1> where
    F: FnOnce(Result<P0::Value, E>) -> P1,
 {
    type Value = P1::Value;
}

/// Creates a `Then` pattern: `f` receives the result of `pattern` and picks
/// the next pattern.
pub fn then<P, F, E, Q>(pattern: P, f: F) -> (r: Then<P, F, E, Q>)
    ensures
        r.pattern() == pattern,
        r.func() == f,
{
    Then { p: pattern, f, error: core::marker::PhantomData, next: core::marker::PhantomData }
}

/// A pattern for the `or_else` combinator: on failure of the wrapped
/// pattern, the continuation picks a fallback pattern from the error.
pub struct OrElse<P, F, E, Q> {
    p: P,
    f: F,
    error: core::marker::PhantomData<E>,
    next: core::marker::PhantomData<Q>,
}

impl<P, F, E, Q> OrElse<P, F, E, Q> {
    /// The wrapped pattern.
    pub closed spec fn pattern(self) -> P {
        self.p
    }

    /// The continuation applied to the wrapped pattern's error.
    pub closed spec fn func(self) -> F {
        self.f
    }

    /// Takes the pattern apart.
    pub fn unwrap(self) -> (r: (P, F))
        ensures
            r.0 == self.pattern(),
            r.1 == self.func(),
    {
        (self.p, self.f)
    }
}

impl<P0: Pattern, F, E, Q> Pattern for OrElse<P0, F, E, Q> {
    type Value = P0::Value;
}

/// Creates an `OrElse` pattern: on failure of `pattern`, `f` picks a
/// fallback pattern from the error.
pub fn or_else<P, F, E, Q>(pattern: P, f: F) -> (r: OrElse<P, F, E, Q>)
    ensures
        r.pattern() == pattern,
        r.func() == f,
{
    OrElse { p: pattern, f, error: core::marker::PhantomData, next: core::marker::PhantomData }
}

/// A pattern for the `or` combinator: a fixed fallback pattern of the same
/// value type, used if the first pattern fails.
pub struct Or<P0, P1> {
    p0: P0,
    p1: P1,
}

impl<P0, P1> Or<P0, P1> {
    /// The first pattern.
    pub closed spec fn first(self) -> P0 {
        self.p0
    }

    /// The fallback pattern.
    pub closed spec fn second(self) -> P1 {
        self.p1
    }

    /// Takes the pattern apart.
    pub fn unwrap(self) -> (r: (P0, P1))
        ensures
            r.0 == self.first(),
            r.1 == self.second(),
    {
        (self.p0, self.p1)
    }
}

impl<P0: Pattern, P1> Pattern for Or<P0, P1> {
    type Value = P0::Value;
}

/// Creates an `Or` pattern: `fallback` is used if `pattern` fails.
pub fn or<P0, P1>(pattern: P0, fallback: P1) -> (r: Or<P0, P1>)
    ensures
        r.first() == pattern,
        r.second() == fallback,
{
    Or { p0: pattern, p1: fallback }
}

/// A pattern for the `fold` combinator: a sequence of patterns driven in
/// order, folding their values into an accumulator.
pub struct IterFold<P, F, T> {
    ps: Vec<P>,
    f: F,
    init: T,
}

impl<P, F, T> IterFold<P, F, T> {
    /// The sequence of patterns, in order.
    pub closed spec fn patterns(self) -> Seq<P> {
        self.ps@
    }

    /// The fold function.
    pub closed spec fn func(self) -> F {
        self.f
    }

    /// The initial accumulator.
    pub closed spec fn acc(self) -> T {
        self.init
    }

    /// Takes the pattern apart.
    pub fn unwrap(self) -> (r: (Vec<P>, F, T))
        ensures
            r.0@ == self.patterns(),
            r.1 == self.func(),
            r.2 == self.acc(),
    {
        (self.ps, self.f, self.init)
    }

    /// Borrows the sequence of patterns.
    pub fn iter_ref(&self) -> (r: &Vec<P>)
        ensures
            r@ == self.patterns(),
    {
        &self.ps
    }
}

impl<P: Pattern, F, T> Pattern for IterFold<P, F, T> where F: Fn(T, P::Value) -> T {
    type Value = T;
}

/// Creates an `IterFold` pattern: the patterns are driven in order and their
/// values folded into the accumulator by `f`, starting from `init`.
pub fn iter_fold<P, F, T>(patterns: Vec<P>, f: F, init: T) -> (r: IterFold<P, F, T>)
    ensures
        r.patterns() == patterns@,
        r.func() == f,
        r.acc() == init,
{
    IterFold { ps: patterns, f, init }
}

/// A pattern which represents an unbounded supply of a cloneable pattern,
/// for repeated matching.
pub struct Repeat<P> {
    p: P,
}

impl<P> Repeat<P> {
    /// The repeated pattern.
    pub closed spec fn pattern(self) -> P {
        self.p
    }

}

/// Creates a `Repeat` pattern from a cloneable pattern.
pub fn repeat<P: Clone>(pattern: P) -> (r: Repeat<P>)
    ensures
        r.pattern() == pattern,
{
    Repeat { p: pattern }
}

/// A pattern which checks the matched value against an expected one,
/// failing with invalid data if they differ.
pub struct Expect<P: Pattern> {
    p: P,
    expected: P::Value,
}

impl<P: Pattern> Expect<P> {
    /// The wrapped pattern.
    pub closed spec fn pattern(self) -> P {
        self.p
    }

    /// The expected value.
    pub closed spec fn expected_value(self) -> P::Value {
        self.expected
    }

    /// Takes the pattern apart.
    pub fn unwrap(self) -> (r: (P, P::Value))
        ensures
            r.0 == self.pattern(),
            r.1 == self.expected_value(),
    {
        (self.p, self.expected)
    }
}

impl<P: Pattern> Pattern for Expect<P> {
    type Value = P::Value;
}

/// Creates an `Expect` pattern: the matched value must equal
/// `expected_value`.
pub fn expect<P: Pattern>(pattern: P, expected_value: P::Value) -> (r: Expect<P>)
    ensures
        r.pattern() == pattern,
        r.expected_value() == expected_value,
{
    Expect { p: pattern, expected: expected_value }
}

/// A pattern which marks a buffer as partially fillable: matching performs
/// a single transfer attempt and reports how many bytes moved.
///
/// This pattern is created by calling the `AllowPartial::allow_partial`
/// method.
#[derive(Debug, Clone)]
pub struct PartialBuf(pub Vec<u8>);

impl Pattern for PartialBuf {
    type Value = (Vec<u8>, usize);
}

/// An unexpected value: what a match against an expected value reports when
/// the stream held something else.
#[derive(Debug, Clone, Copy, PartialEq, Eq, Structural)]
pub struct UnexpectedValue<T>(pub T);

} // verus!
