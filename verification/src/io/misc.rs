//! Miscellaneous I/O components.

use vstd::prelude::*;
use crate::error::IoError;
use crate::io::{Async, AsyncRead, AsyncWrite};
use crate::pattern::Window;

verus! {

/// `Counter` counts the number of read and written bytes issued to an
/// underlying stream, saturating at the largest count.
pub struct Counter<T> {
    inner: T,
    read_size: usize,
    written_size: usize,
}

impl<T> Counter<T> {
    /// The wrapped stream.
    pub closed spec fn spec_inner(&self) -> T {
        self.inner
    }

    /// The total byte count read so far.
    pub closed spec fn spec_read_size(&self) -> usize {
        self.read_size
    }

    /// The total byte count written so far.
    pub closed spec fn spec_written_size(&self) -> usize {
        self.written_size
    }

    /// Makes a new `Counter` which has the inner stream `T`.
    pub fn new(inner: T) -> (r: Self)
        ensures
            r.spec_inner() == inner,
            r.spec_read_size() == 0,
            r.spec_written_size() == 0,
    {
        Counter { inner, read_size: 0, written_size: 0 }
    }

    /// Gets a reference to the underlying stream.
    pub fn inner_ref(&self) -> (r: &T)
        ensures
            *r == self.spec_inner(),
    {
        &self.inner
    }

    /// Gets a mutable reference to the underlying stream.
    pub fn inner_mut(&mut self) -> (r: &mut T)
        ensures
            *r == old(self).spec_inner(),
            final(self).spec_inner() == *final(r),
            final(self).spec_read_size() == old(self).spec_read_size(),
            final(self).spec_written_size() == old(self).spec_written_size(),
    {
        &mut self.inner
    }

    /// Unwraps this `Counter`, returning the underlying stream.
    pub fn into_inner(self) -> (r: T)
        ensures
            r == self.spec_inner(),
    {
        self.inner
    }

    /// Returns the total byte size written to the underlying stream.
    pub fn written_size(&self) -> (r: usize)
        ensures
            r == self.spec_written_size(),
    {
        self.written_size
    }

    /// Returns the total byte size read from the underlying stream.
    pub fn read_size(&self) -> (r: usize)
        ensures
            r == self.spec_read_size(),
    {
        self.read_size
    }
}

impl<T: AsyncRead> AsyncRead for Counter<T> {
    closed spec fn rem(&self) -> Seq<u8> {
        self.inner.rem()
    }

    closed spec fn always_ready(&self) -> bool {
        self.inner.always_ready()
    }

    fn read(&mut self, buf: &mut Window) -> (r: Result<Async<usize>, IoError>) {
        let res = self.inner.read(buf);
        if let Ok(Async::Ready(n)) = res {
            if self.read_size <= usize::MAX - n {
                self.read_size = self.read_size + n;
            } else {
                self.read_size = usize::MAX;
            }
        }
        res
    }
}

impl<T: AsyncWrite> AsyncWrite for Counter<T> {
    closed spec fn written(&self) -> Seq<u8> {
        self.inner.written()
    }

    closed spec fn spare(&self) -> nat {
        self.inner.spare()
    }

    closed spec fn always_ready(&self) -> bool {
        self.inner.always_ready()
    }

    fn write(&mut self, buf: &Window) -> (r: Result<Async<usize>, IoError>) {
        let res = self.inner.write(buf);
        if let Ok(Async::Ready(n)) = res {
            if self.written_size <= usize::MAX - n {
                self.written_size = self.written_size + n;
            } else {
                self.written_size = usize::MAX;
            }
        }
        res
    }

    fn flush(&mut self) -> (r: Result<Async<()>, IoError>) {
        self.inner.flush()
    }
}

/// A stateful I/O stream: the stream plus a caller-chosen piece of state
/// carried alongside it.
pub struct Stateful<S, T> {
    /// The I/O stream.
    pub stream: S,
    /// The carried state.
    pub state: T,
}

impl<S, T> Stateful<S, T> {
    /// Maps a `Stateful<S, T>` to `Stateful<S, U>` by applying a function to
    /// the contained state.
    pub fn map_state<F, U>(self, f: F) -> (r: Stateful<S, U>) where F: FnOnce(T) -> U
        requires
            call_requires(f, (self.state,)),
        ensures
            r.stream == self.stream,
            call_ensures(f, (self.state,), r.state),
    {
        let u = f(self.state);
        Stateful { stream: self.stream, state: u }
    }
}

impl<S: AsyncRead, T> AsyncRead for Stateful<S, T> {
    closed spec fn rem(&self) -> Seq<u8> {
        self.stream.rem()
    }

    closed spec fn always_ready(&self) -> bool {
        self.stream.always_ready()
    }

    fn read(&mut self, buf: &mut Window) -> (r: Result<Async<usize>, IoError>) {
        self.stream.read(buf)
    }
}

impl<S: AsyncWrite, T> AsyncWrite for Stateful<S, T> {
    closed spec fn written(&self) -> Seq<u8> {
        self.stream.written()
    }

    closed spec fn spare(&self) -> nat {
        self.stream.spare()
    }

    closed spec fn always_ready(&self) -> bool {
        self.stream.always_ready()
    }

    fn write(&mut self, buf: &Window) -> (r: Result<Async<usize>, IoError>) {
        self.stream.write(buf)
    }

    fn flush(&mut self) -> (r: Result<Async<()>, IoError>) {
        self.stream.flush()
    }
}

} // verus!
