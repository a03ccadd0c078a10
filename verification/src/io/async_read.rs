//! Primitive and exact-transfer read operations.
//!
//! [`ReadBytes`] performs exactly one read attempt; [`ReadNonEmpty`] turns a
//! zero-byte read into an "unexpected end of stream" error; [`ReadExact`]
//! repeats reads against a windowed buffer until the window is fully
//! consumed.  Every operation owns the stream while in flight and hands it
//! back in both the success and the failure result.

use vstd::prelude::*;
use crate::error::{AsyncError, ErrorKind, IoError};
use crate::io::{Async, AsyncIoError, AsyncRead};
use crate::pattern::{lemma_splice_append, lemma_splice_empty, splice, win_eq, Window};

verus! {

/// A future which will perform a single read attempt from `R` into the front
/// of a window's active region.
///
/// This is created by [`read`].
#[derive(Debug)]
pub struct ReadBytes<R: AsyncRead> {
    state: Option<(R, Window)>,
}

/// Creates a future which will read bytes asynchronously.
pub fn read<R: AsyncRead>(reader: R, buf: Window) -> (f: ReadBytes<R>)
    requires
        buf.wf(),
    ensures
        !f.done(),
        f.wf(),
        f.stream() == reader,
        f.window() == buf,
{
    ReadBytes { state: Some((reader, buf)) }
}

impl<R: AsyncRead> ReadBytes<R> {
    /// The operation has already produced its final result and must not be
    /// polled again.
    pub closed spec fn done(&self) -> bool {
        self.state is None
    }

    /// The stream owned by the operation while in flight.
    pub closed spec fn stream(&self) -> R {
        self.state->Some_0.0
    }

    /// The window owned by the operation while in flight.
    pub closed spec fn window(&self) -> Window {
        self.state->Some_0.1
    }

    /// The owned window is well formed.
    pub open spec fn wf(&self) -> bool {
        !self.done() ==> self.window().wf()
    }

    /// Returns the reference to the reader.
    pub fn reader(&self) -> (r: &R)
        requires
            !self.done(),
        ensures
            *r == self.stream(),
    {
        match &self.state {
            Some(p) => &p.0,
            None => vstd::pervasive::unreached(),
        }
    }

    /// Returns the mutable reference to the reader.
    pub fn reader_mut(&mut self) -> (r: &mut R)
        requires
            !old(self).done(),
        ensures
            *r == old(self).stream(),
            !final(self).done(),
            final(self).stream() == *final(r),
            final(self).window() == old(self).window(),
    {
        match &mut self.state {
            Some(p) => &mut p.0,
            None => vstd::pervasive::unreached(),
        }
    }

    /// Attempts one read; yields `(stream, buffer, read_size)`.
    pub fn poll(&mut self) -> (r: Result<
        Async<(R, Window, usize)>,
        AsyncIoError<(R, Window)>,
    >)
        requires
            !old(self).done(),
            old(self).wf(),
        ensures
            match r {
                Ok(Async::Ready((r2, w2, n))) => {
                    &&& final(self).done()
                    &&& read_once(old(self).stream(), old(self).window(), r2, w2, n as int)
                },
                Ok(Async::NotReady) => {
                    &&& !final(self).done()
                    &&& final(self).wf()
                    &&& !old(self).stream().always_ready()
                    &&& final(self).stream().rem() == old(self).stream().rem()
                    &&& final(self).stream().always_ready() == old(self).stream().always_ready()
                    &&& win_eq(final(self).window(), old(self).window())
                },
                Err(e) => {
                    &&& final(self).done()
                    &&& e.spec_error().kind == ErrorKind::Other
                    &&& e.spec_state().0.rem() == old(self).stream().rem()
                    &&& e.spec_state().0.always_ready() == old(self).stream().always_ready()
                    &&& win_eq(e.spec_state().1, old(self).window())
                },
            },
    {
        let (mut reader, mut buf) = match self.state.take() {
            Some(p) => p,
            None => vstd::pervasive::unreached(),
        };
        match reader.read(&mut buf) {
            Ok(Async::Ready(n)) => Ok(Async::Ready((reader, buf, n))),
            Ok(Async::NotReady) => {
                self.state = Some((reader, buf));
                Ok(Async::NotReady)
            },
            Err(e) => Err(AsyncError::new((reader, buf), e)),
        }
    }
}

/// One successful read attempt: `n` bytes moved from the front of `r1`'s
/// remainder into the front of `w1`'s active region, producing `r2` and `w2`.
pub open spec fn read_once<R: AsyncRead>(r1: R, w1: Window, r2: R, w2: Window, n: int) -> bool {
    &&& 0 <= n <= w1.spec_len()
    &&& n <= r1.rem().len()
    &&& (n == 0 <==> (w1.spec_len() == 0 || r1.rem().len() == 0))
    &&& r2.rem() == r1.rem().skip(n)
    &&& r2.always_ready() == r1.always_ready()
    &&& w2.wf()
    &&& w2.spec_start() == w1.spec_start()
    &&& w2.spec_end() == w1.spec_end()
    &&& w2.buf() == splice(w1.buf(), w1.spec_start(), r1.rem().take(n))
}

/// A future which will read a non-empty chunk from `R`, reporting an
/// unexpected end of stream if the stream ends while the window still wants
/// bytes.
///
/// This is created by [`read_non_empty`].
#[derive(Debug)]
pub struct ReadNonEmpty<R: AsyncRead> {
    inner: ReadBytes<R>,
}

/// Creates a future which will read non-empty bytes asynchronously.
pub fn read_non_empty<R: AsyncRead>(reader: R, buf: Window) -> (f: ReadNonEmpty<R>)
    requires
        buf.wf(),
    ensures
        !f.done(),
        f.wf(),
        f.stream() == reader,
        f.window() == buf,
{
    ReadNonEmpty { inner: read(reader, buf) }
}

impl<R: AsyncRead> ReadNonEmpty<R> {
    /// The operation has already produced its final result.
    pub closed spec fn done(&self) -> bool {
        self.inner.done()
    }

    /// The stream owned by the operation while in flight.
    pub closed spec fn stream(&self) -> R {
        self.inner.stream()
    }

    /// The window owned by the operation while in flight.
    pub closed spec fn window(&self) -> Window {
        self.inner.window()
    }

    /// The owned window is well formed.
    pub closed spec fn wf(&self) -> bool {
        self.inner.wf()
    }

    /// Returns the reference to the reader.
    pub fn reader(&self) -> (r: &R)
        requires
            !self.done(),
        ensures
            *r == self.stream(),
    {
        self.inner.reader()
    }

    /// Returns the mutable reference to the reader.
    pub fn reader_mut(&mut self) -> (r: &mut R)
        requires
            !old(self).done(),
        ensures
            *r == old(self).stream(),
            !final(self).done(),
            final(self).stream() == *final(r),
            final(self).window() == old(self).window(),
    {
        self.inner.reader_mut()
    }

    /// Attempts one read; a zero-byte read into a non-empty window fails
    /// with an unexpected end-of-stream error.
    pub fn poll(&mut self) -> (r: Result<
        Async<(R, Window, usize)>,
        AsyncIoError<(R, Window)>,
    >)
        requires
            !old(self).done(),
            old(self).wf(),
        ensures
            match r {
                Ok(Async::Ready((r2, w2, n))) => {
                    &&& final(self).done()
                    &&& read_once(old(self).stream(), old(self).window(), r2, w2, n as int)
                    &&& (old(self).window().spec_len() > 0 ==> n > 0)
                },
                Ok(Async::NotReady) => {
                    &&& !final(self).done()
                    &&& final(self).wf()
                    &&& !old(self).stream().always_ready()
                    &&& final(self).stream().rem() == old(self).stream().rem()
                    &&& final(self).stream().always_ready() == old(self).stream().always_ready()
                    &&& win_eq(final(self).window(), old(self).window())
                },
                Err(e) => {
                    &&& final(self).done()
                    &&& e.spec_state().0.rem() == old(self).stream().rem()
                    &&& e.spec_state().0.always_ready() == old(self).stream().always_ready()
                    &&& win_eq(e.spec_state().1, old(self).window())
                    &&& (e.spec_error().kind == ErrorKind::UnexpectedEos || e.spec_error().kind
                        == ErrorKind::Other)
                    &&& (e.spec_error().kind == ErrorKind::UnexpectedEos ==> old(
                        self,
                    ).stream().rem().len() == 0 && old(self).window().spec_len() > 0)
                },
            },
    {
        match self.inner.poll() {
            Ok(Async::Ready((r2, mut w2, n))) => {
                if n == 0 && w2.len() > 0 {
                    proof {
                        assert(w2.buf() =~= old(self).window().buf());
                    }
                    let e = IoError::new(ErrorKind::UnexpectedEos);
                    Err(AsyncError::new((r2, w2), e))
                } else {
                    Ok(Async::Ready((r2, w2, n)))
                }
            },
            Ok(Async::NotReady) => Ok(Async::NotReady),
            Err(e) => Err(e),
        }
    }
}


/// All `n` active bytes of `w0` were filled from the front of stream
/// remainder `s0`, consuming the window and producing `r2` and `w2`.
pub open spec fn exact_read_ok<R: AsyncRead>(w0: Window, s0: Seq<u8>, r2: R, w2: Window) -> bool {
    &&& w0.spec_len() <= s0.len()
    &&& w2.wf()
    &&& w2.spec_start() == w0.spec_end()
    &&& w2.spec_end() == w0.spec_end()
    &&& w2.buf() == splice(w0.buf(), w0.spec_start(), s0.take(w0.spec_len()))
    &&& r2.rem() == s0.skip(w0.spec_len())
}

/// The stream ended after `k` of the `w0.spec_len()` required bytes.
pub open spec fn exact_read_eos<R: AsyncRead>(w0: Window, s0: Seq<u8>, r2: R, w2: Window) -> bool {
    &&& s0.len() < w0.spec_len()
    &&& w2.wf()
    &&& w2.spec_start() == w0.spec_start() + s0.len()
    &&& w2.spec_end() == w0.spec_end()
    &&& w2.buf() == splice(w0.buf(), w0.spec_start(), s0)
    &&& r2.rem().len() == 0
}

/// The stream itself failed after `k` bytes had arrived.
pub open spec fn exact_read_failed<R: AsyncRead>(
    w0: Window,
    s0: Seq<u8>,
    r2: R,
    w2: Window,
) -> bool {
    exists|k: int|
        {
            &&& 0 <= k <= s0.len()
            &&& k <= w0.spec_len()
            &&& w2.wf()
            &&& w2.spec_start() == w0.spec_start() + k
            &&& w2.spec_end() == w0.spec_end()
            &&& w2.buf() == splice(w0.buf(), w0.spec_start(), s0.take(k))
            &&& r2.rem() == s0.skip(k)
        }
}

/// A future which will read bytes required to fill the window's active
/// region completely, repeating partial reads until the window is consumed
/// or the stream ends prematurely.
///
/// This is created by [`read_exact`].
pub struct ReadExact<R: AsyncRead> {
    inner: ReadNonEmpty<R>,
    orig: Ghost<(Window, Seq<u8>, bool)>,
}

/// Creates a future which will read exact bytes asynchronously.
pub fn read_exact<R: AsyncRead>(reader: R, buf: Window) -> (f: ReadExact<R>)
    requires
        buf.wf(),
    ensures
        !f.done(),
        f.wf(),
        f.orig_window() == buf,
        f.orig_rem() == reader.rem(),
        f.ready() == reader.always_ready(),
{
    let ghost orig = (buf, reader.rem(), reader.always_ready());
    let f = ReadExact { inner: read_non_empty(reader, buf), orig: Ghost(orig) };
    proof {
        lemma_splice_empty(orig.0.buf(), orig.0.spec_start(), orig.1.take(0));
        assert(orig.1.skip(0) =~= orig.1);
    }
    f
}

impl<R: AsyncRead> ReadExact<R> {
    /// The operation has already produced its final result.
    pub closed spec fn done(&self) -> bool {
        self.inner.done()
    }

    /// The window as it was handed to the operation.
    pub closed spec fn orig_window(&self) -> Window {
        self.orig@.0
    }

    /// The stream's remainder as it was when the operation was created.
    pub closed spec fn orig_rem(&self) -> Seq<u8> {
        self.orig@.1
    }

    /// Whether the owned stream never reports "would block".
    pub closed spec fn ready(&self) -> bool {
        self.orig@.2
    }

    /// The stream owned by the operation while in flight.
    pub closed spec fn stream(&self) -> R {
        self.inner.stream()
    }

    /// How many bytes have been transferred so far.
    closed spec fn progress(&self) -> int {
        self.inner.window().spec_start() - self.orig_window().spec_start()
    }

    /// Internal invariant: the inner window is the original window advanced
    /// over the bytes transferred so far, filled from the original remainder.
    pub closed spec fn wf(&self) -> bool {
        !self.done() ==> {
            let k = self.progress();
            &&& self.orig_window().wf()
            &&& self.inner.wf()
            &&& 0 <= k <= self.orig_rem().len()
            &&& self.orig_window().spec_start() <= self.inner.window().spec_start()
            &&& self.inner.window().spec_end() == self.orig_window().spec_end()
            &&& self.inner.window().buf() == splice(
                self.orig_window().buf(),
                self.orig_window().spec_start(),
                self.orig_rem().take(k),
            )
            &&& self.inner.stream().rem() == self.orig_rem().skip(k)
            &&& self.inner.stream().always_ready() == self.ready()
        }
    }

    /// Returns the reference to the reader.
    pub fn reader(&self) -> (r: &R)
        requires
            !self.done(),
        ensures
            *r == self.stream(),
    {
        self.inner.reader()
    }

    /// Returns the mutable reference to the reader.
    pub fn reader_mut(&mut self) -> (r: &mut R)
        requires
            !old(self).done(),
        ensures
            *r == old(self).stream(),
            !final(self).done(),
            final(self).stream() == *final(r),
    {
        self.inner.reader_mut()
    }

    /// Repeats reads until the window is fully consumed; yields the stream
    /// and the consumed window, whose former active region now holds the
    /// first `len` bytes the stream yielded.
    pub fn poll(&mut self) -> (r: Result<Async<(R, Window)>, AsyncIoError<(R, Window)>>)
        requires
            !old(self).done(),
            old(self).wf(),
        ensures
            match r {
                Ok(Async::Ready((r2, w2))) => {
                    &&& final(self).done()
                    &&& exact_read_ok(old(self).orig_window(), old(self).orig_rem(), r2, w2)
                    &&& r2.always_ready() == old(self).ready()
                },
                Ok(Async::NotReady) => {
                    &&& !final(self).done()
                    &&& final(self).wf()
                    &&& !old(self).ready()
                    &&& final(self).orig_window() == old(self).orig_window()
                    &&& final(self).orig_rem() == old(self).orig_rem()
                    &&& final(self).ready() == old(self).ready()
                },
                Err(e) => {
                    &&& final(self).done()
                    &&& e.spec_state().0.always_ready() == old(self).ready()
                    &&& (e.spec_error().kind == ErrorKind::UnexpectedEos || e.spec_error().kind
                        == ErrorKind::Other)
                    &&& (e.spec_error().kind == ErrorKind::UnexpectedEos ==> exact_read_eos(
                        old(self).orig_window(),
                        old(self).orig_rem(),
                        e.spec_state().0,
                        e.spec_state().1,
                    ))
                    &&& (e.spec_error().kind == ErrorKind::Other ==> exact_read_failed(
                        old(self).orig_window(),
                        old(self).orig_rem(),
                        e.spec_state().0,
                        e.spec_state().1,
                    ))
                },
            },
    {
        loop
            invariant
                !self.done(),
                self.wf(),
                self.orig == old(self).orig,
            decreases self.inner.window().spec_len(),
        {
            let ghost w0 = self.orig@.0;
            let ghost s0 = self.orig@.1;
            let ghost k = self.progress();
            match self.inner.poll() {
                Ok(Async::NotReady) => {
                    return Ok(Async::NotReady);
                },
                Ok(Async::Ready((r2, w2, n))) => {
                    proof {
                        assert(s0.skip(k).take(n as int) =~= s0.subrange(k, k + n));
                        assert(s0.take(k) + s0.subrange(k, k + n) =~= s0.take(k + n));
                        lemma_splice_append(
                            w0.buf(),
                            w0.spec_start(),
                            s0.take(k),
                            s0.subrange(k, k + n),
                        );
                        assert(s0.skip(k).skip(n as int) =~= s0.skip(k + n));
                    }
                    let w3 = w2.skip(n);
                    if w3.len() == 0 {
                        proof {
                            assert(s0.take(k + n) =~= s0.take(w0.spec_len()));
                            assert(s0.skip(k + n) =~= s0.skip(w0.spec_len()));
                        }
                        return Ok(Async::Ready((r2, w3)));
                    } else {
                        self.inner = read_non_empty(r2, w3);
                    }
                },
                Err(e) => {
                    if e.error_ref().kind() == ErrorKind::UnexpectedEos {
                        proof {
                            assert(s0.take(k) =~= s0);
                        }
                        return Err(e);
                    } else {
                        return Err(e);
                    }
                },
            }
        }
    }
}

} // verus!
