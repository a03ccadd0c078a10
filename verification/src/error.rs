//! Error related components.

use vstd::prelude::*;

verus! {

/// The kind of an I/O failure raised by this library or reported by a stream.
///
/// A *would block* condition is not an error: operations report it as a
/// separate "not ready" result and it never appears here.
#[derive(Debug, Clone, Copy, PartialEq, Eq, Structural)]
pub enum ErrorKind {
    /// The stream ended while more bytes were still required.
    UnexpectedEos,
    /// Transferred bytes failed semantic validation (e.g. not valid UTF-8).
    InvalidData,
    /// A scan grew past the configured maximum buffer size.
    BufferLimitReached,
    /// Any other error surfaced verbatim from the underlying stream.
    Other,
}

/// An I/O error: a kind, as the underlying stream or the library reported it.
#[derive(Debug, Clone, Copy, PartialEq, Eq, Structural)]
pub struct IoError {
    /// What went wrong.
    pub kind: ErrorKind,
}

impl IoError {
    /// Makes a new error of the given kind.
    pub fn new(kind: ErrorKind) -> (r: Self)
        ensures
            r.kind == kind,
    {
        IoError { kind }
    }

    /// The kind of this error.
    pub fn kind(&self) -> (r: ErrorKind)
        ensures
            r == self.kind,
    {
        self.kind
    }
}

/// The error type for asynchronous operations.
///
/// This pairs an actual error value with the state that caused it — most
/// importantly the stream, so the caller can decide whether to retry, close,
/// or continue a pipeline.  Losing the stream on error is a design defect;
/// every failure path in this library hands it back here.
pub struct AsyncError<T, E> {
    state: T,
    error: E,
}

impl<T, E> AsyncError<T, E> {
    /// Makes a new error instance.
    pub fn new(state: T, error: E) -> (r: Self)
        ensures
            r.spec_state() == state,
            r.spec_error() == error,
    {
        AsyncError { state, error }
    }

    /// The state carried by this error.
    pub closed spec fn spec_state(&self) -> T {
        self.state
    }

    /// The actual error carried by this error.
    pub closed spec fn spec_error(&self) -> E {
        self.error
    }

    /// Gets the immutable reference of the state of this `AsyncError`.
    pub fn state_ref(&self) -> (r: &T)
        ensures
            *r == self.spec_state(),
    {
        &self.state
    }

    /// Gets the mutable reference of the state of this `AsyncError`.
    pub fn state_muf(&mut self) -> (r: &mut T)
        ensures
            *r == old(self).spec_state(),
            final(self).spec_state() == *final(r),
            final(self).spec_error() == old(self).spec_error(),
    {
        &mut self.state
    }

    /// Converts this `AsyncError` into the underlying state `T`.
    pub fn into_state(self) -> (r: T)
        ensures
            r == self.spec_state(),
    {
        self.state
    }

    /// Gets the immutable reference of the actual error of this `AsyncError`.
    pub fn error_ref(&self) -> (r: &E)
        ensures
            *r == self.spec_error(),
    {
        &self.error
    }

    /// Gets the mutable reference of the actual error of this `AsyncError`.
    pub fn error_mut(&mut self) -> (r: &mut E)
        ensures
            *r == old(self).spec_error(),
            final(self).spec_error() == *final(r),
            final(self).spec_state() == old(self).spec_state(),
    {
        &mut self.error
    }

    /// Converts this `AsyncError` into the underlying error `E`.
    pub fn into_error(self) -> (r: E)
        ensures
            r == self.spec_error(),
    {
        self.error
    }

    /// Unwraps this `AsyncError`, returning the underlying state and error.
    pub fn unwrap(self) -> (r: (T, E))
        ensures
            r.0 == self.spec_state(),
            r.1 == self.spec_error(),
    {
        (self.state, self.error)
    }

    /// Maps an `AsyncError<T, E>` to `AsyncError<U, E>` by applying a
    /// function to the contained state.
    pub fn map_state<F, U>(self, f: F) -> (r: AsyncError<U, E>)
        where
            F: FnOnce(T) -> U,
        requires
            call_requires(f, (self.spec_state(),)),
        ensures
            call_ensures(f, (self.spec_state(),), r.spec_state()),
            r.spec_error() == self.spec_error(),
    {
        let u = f(self.state);
        AsyncError { state: u, error: self.error }
    }
}

} // verus!
