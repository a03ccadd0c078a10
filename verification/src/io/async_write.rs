//! Primitive and exact-transfer write operations.
//!
//! [`WriteBytes`] performs exactly one write attempt; [`WriteAll`] repeats
//! writes against a windowed buffer until every active byte has been
//! accepted, reporting an unexpected end of stream if the sink stops
//! accepting bytes early.  [`Flush`] drives the sink's flush.

use vstd::prelude::*;
use crate::error::{AsyncError, ErrorKind, IoError};
use crate::io::{Async, AsyncIoError, AsyncWrite};
use crate::pattern::{win_eq, Window};

verus! {

/// A future which will perform a single write attempt of the front of a
/// window's active region into `W`.
///
/// This is created by [`write`].
pub struct WriteBytes<W: AsyncWrite> {
    state: Option<(W, Window)>,
}

/// Creates a future which will write bytes asynchronously.
pub fn write<W: AsyncWrite>(writer: W, buf: Window) -> (f: WriteBytes<W>)
    requires
        buf.wf(),
    ensures
        !f.done(),
        f.wf(),
        f.sink() == writer,
        f.window() == buf,
{
    WriteBytes { state: Some((writer, buf)) }
}

impl<W: AsyncWrite> WriteBytes<W> {
    /// The operation has already produced its final result.
    pub closed spec fn done(&self) -> bool {
        self.state is None
    }

    /// The sink owned by the operation while in flight.
    pub closed spec fn sink(&self) -> W {
        self.state->Some_0.0
    }

    /// The window owned by the operation while in flight.
    pub closed spec fn window(&self) -> Window {
        self.state->Some_0.1
    }

    /// The owned window is well formed.
    pub open spec fn wf(&self) -> bool {
        !self.done() ==> self.window().wf()
    }

    /// Returns the reference to the writer.
    pub fn writer(&self) -> (r: &W)
        requires
            !self.done(),
        ensures
            *r == self.sink(),
    {
        match &self.state {
            Some(p) => &p.0,
            None => vstd::pervasive::unreached(),
        }
    }

    /// Attempts one write; yields `(sink, buffer, written_size)`.
    pub fn poll(&mut self) -> (r: Result<
        Async<(W, Window, usize)>,
        AsyncIoError<(W, Window)>,
    >)
        requires
            !old(self).done(),
            old(self).wf(),
        ensures
            match r {
                Ok(Async::Ready((w2, b2, n))) => {
                    &&& final(self).done()
                    &&& write_once(old(self).sink(), old(self).window(), w2, b2, n as int)
                },
                Ok(Async::NotReady) => {
                    &&& !final(self).done()
                    &&& final(self).wf()
                    &&& !old(self).sink().always_ready()
                    &&& final(self).sink().written() == old(self).sink().written()
                    &&& final(self).sink().spare() == old(self).sink().spare()
                    &&& final(self).sink().always_ready() == old(self).sink().always_ready()
                    &&& win_eq(final(self).window(), old(self).window())
                },
                Err(e) => {
                    &&& final(self).done()
                    &&& e.spec_error().kind == ErrorKind::Other
                    &&& e.spec_state().0.written() == old(self).sink().written()
                    &&& e.spec_state().0.spare() == old(self).sink().spare()
                    &&& e.spec_state().0.always_ready() == old(self).sink().always_ready()
                    &&& win_eq(e.spec_state().1, old(self).window())
                },
            },
    {
        let (mut writer, buf) = match self.state.take() {
            Some(p) => p,
            None => vstd::pervasive::unreached(),
        };
        match writer.write(&buf) {
            Ok(Async::Ready(n)) => Ok(Async::Ready((writer, buf, n))),
            Ok(Async::NotReady) => {
                self.state = Some((writer, buf));
                Ok(Async::NotReady)
            },
            Err(e) => Err(AsyncError::new((writer, buf), e)),
        }
    }
}

/// One successful write attempt: `n` bytes moved from the front of `b1`'s
/// active region into the sink, producing `w2`; the window is untouched.
pub open spec fn write_once<W: AsyncWrite>(w1: W, b1: Window, w2: W, b2: Window, n: int) -> bool {
    &&& 0 <= n <= b1.spec_len()
    &&& n <= w1.spare()
    &&& (n == 0 <==> (b1.spec_len() == 0 || w1.spare() == 0))
    &&& w2.written() == w1.written() + b1.active().take(n)
    &&& w2.spare() == w1.spare() - n
    &&& w2.always_ready() == w1.always_ready()
    &&& win_eq(b2, b1)
    &&& b2.wf()
}

/// The whole active region of `b0` was accepted by a sink whose contents
/// were `written0` and whose spare capacity was `spare0`, consuming the
/// window.
pub open spec fn write_all_ok<W: AsyncWrite>(
    written0: Seq<u8>,
    spare0: nat,
    b0: Window,
    w2: W,
    b2: Window,
) -> bool {
    &&& b0.spec_len() <= spare0
    &&& w2.written() == written0 + b0.active()
    &&& w2.spare() == spare0 - b0.spec_len()
    &&& b2.wf()
    &&& b2.buf() == b0.buf()
    &&& b2.spec_start() == b0.spec_end()
    &&& b2.spec_end() == b0.spec_end()
}

/// The sink stopped accepting bytes after `spare0` of the active bytes.
pub open spec fn write_all_eos<W: AsyncWrite>(
    written0: Seq<u8>,
    spare0: nat,
    b0: Window,
    w2: W,
    b2: Window,
) -> bool {
    &&& spare0 < b0.spec_len()
    &&& w2.written() == written0 + b0.active().take(spare0 as int)
    &&& w2.spare() == 0
    &&& b2.wf()
    &&& b2.buf() == b0.buf()
    &&& b2.spec_start() == b0.spec_start() + spare0
    &&& b2.spec_end() == b0.spec_end()
}

/// The sink itself failed after some prefix had been accepted.
pub open spec fn write_all_failed<W: AsyncWrite>(
    written0: Seq<u8>,
    spare0: nat,
    b0: Window,
    w2: W,
    b2: Window,
) -> bool {
    exists|k: int|
        {
            &&& 0 <= k <= b0.spec_len()
            &&& k <= spare0
            &&& w2.written() == written0 + b0.active().take(k)
            &&& w2.spare() == spare0 - k
            &&& b2.wf()
            &&& b2.buf() == b0.buf()
            &&& b2.spec_start() == b0.spec_start() + k
            &&& b2.spec_end() == b0.spec_end()
        }
}

/// A future which will write all active bytes of a window into `W`,
/// repeating partial writes until the window is consumed or the sink stops
/// accepting bytes.
///
/// This is created by [`write_all`].
pub struct WriteAll<W: AsyncWrite> {
    inner: WriteBytes<W>,
    orig: Ghost<(Window, Seq<u8>, nat, bool)>,
}

/// Creates a future which will write all bytes asynchronously.
pub fn write_all<W: AsyncWrite>(writer: W, buf: Window) -> (f: WriteAll<W>)
    requires
        buf.wf(),
    ensures
        !f.done(),
        f.wf(),
        f.orig_window() == buf,
        f.orig_written() == writer.written(),
        f.orig_spare() == writer.spare(),
        f.ready() == writer.always_ready(),
{
    let ghost orig = (buf, writer.written(), writer.spare(), writer.always_ready());
    let f = WriteAll { inner: write(writer, buf), orig: Ghost(orig) };
    proof {
        assert(orig.1 + orig.0.active().take(0) =~= orig.1);
    }
    f
}

impl<W: AsyncWrite> WriteAll<W> {
    /// The operation has already produced its final result.
    pub closed spec fn done(&self) -> bool {
        self.inner.done()
    }

    /// The window as it was handed to the operation.
    pub closed spec fn orig_window(&self) -> Window {
        self.orig@.0
    }

    /// The sink's contents as they were when the operation was created.
    pub closed spec fn orig_written(&self) -> Seq<u8> {
        self.orig@.1
    }

    /// The sink's spare capacity as it was when the operation was created.
    pub closed spec fn orig_spare(&self) -> nat {
        self.orig@.2
    }

    /// Whether the owned sink never reports "would block".
    pub closed spec fn ready(&self) -> bool {
        self.orig@.3
    }

    /// The sink owned by the operation while in flight.
    pub closed spec fn sink(&self) -> W {
        self.inner.sink()
    }

    /// How many bytes have been accepted so far.
    closed spec fn progress(&self) -> int {
        self.inner.window().spec_start() - self.orig_window().spec_start()
    }

    /// Internal invariant: the inner window is the original window advanced
    /// over the bytes the sink has accepted so far.
    pub closed spec fn wf(&self) -> bool {
        !self.done() ==> {
            let k = self.progress();
            &&& self.orig_window().wf()
            &&& self.inner.wf()
            &&& 0 <= k <= self.orig_spare()
            &&& self.orig_window().spec_start() <= self.inner.window().spec_start()
            &&& self.inner.window().spec_end() == self.orig_window().spec_end()
            &&& self.inner.window().buf() == self.orig_window().buf()
            &&& self.inner.sink().written() == self.orig_written() + self.orig_window().active(
            ).take(k)
            &&& self.inner.sink().spare() == self.orig_spare() - k
            &&& self.inner.sink().always_ready() == self.ready()
        }
    }

    /// Returns the reference to the writer.
    pub fn writer(&self) -> (r: &W)
        requires
            !self.done(),
        ensures
            *r == self.sink(),
    {
        self.inner.writer()
    }

    /// Repeats writes until the window is fully consumed; yields the sink
    /// and the consumed window.
    pub fn poll(&mut self) -> (r: Result<Async<(W, Window)>, AsyncIoError<(W, Window)>>)
        requires
            !old(self).done(),
            old(self).wf(),
        ensures
            match r {
                Ok(Async::Ready((w2, b2))) => {
                    &&& final(self).done()
                    &&& write_all_ok(
                        old(self).orig_written(),
                        old(self).orig_spare(),
                        old(self).orig_window(),
                        w2,
                        b2,
                    )
                    &&& w2.always_ready() == old(self).ready()
                },
                Ok(Async::NotReady) => {
                    &&& !final(self).done()
                    &&& final(self).wf()
                    &&& !old(self).ready()
                    &&& final(self).orig_window() == old(self).orig_window()
                    &&& final(self).orig_written() == old(self).orig_written()
                    &&& final(self).orig_spare() == old(self).orig_spare()
                    &&& final(self).ready() == old(self).ready()
                },
                Err(e) => {
                    &&& final(self).done()
                    &&& e.spec_state().0.always_ready() == old(self).ready()
                    &&& (e.spec_error().kind == ErrorKind::UnexpectedEos || e.spec_error().kind
                        == ErrorKind::Other)
                    &&& (e.spec_error().kind == ErrorKind::UnexpectedEos ==> write_all_eos(
                        old(self).orig_written(),
                        old(self).orig_spare(),
                        old(self).orig_window(),
                        e.spec_state().0,
                        e.spec_state().1,
                    ))
                    &&& (e.spec_error().kind == ErrorKind::Other ==> write_all_failed(
                        old(self).orig_written(),
                        old(self).orig_spare(),
                        old(self).orig_window(),
                        e.spec_state().0,
                        e.spec_state().1,
                    ))
                },
            },
    {
        loop
            invariant
                !self.done(),
                self.wf(),
                self.orig == old(self).orig,
            decreases self.inner.window().spec_len(),
        {
            let ghost b0 = self.orig@.0;
            let ghost written0 = self.orig@.1;
            let ghost k = self.progress();
            match self.inner.poll() {
                Ok(Async::NotReady) => {
                    return Ok(Async::NotReady);
                },
                Ok(Async::Ready((w2, b2, n))) => {
                    proof {
                        assert(b2.active().take(n as int) =~= b0.active().subrange(k, k + n));
                        assert((written0 + b0.active().take(k)) + b0.active().subrange(k, k + n)
                            =~= written0 + b0.active().take(k + n));
                    }
                    let b3 = b2.skip(n);
                    if b3.len() == 0 {
                        proof {
                            assert(b0.active().take(k + n) =~= b0.active());
                        }
                        return Ok(Async::Ready((w2, b3)));
                    } else if n == 0 {
                        proof {
                            assert(written0 + b0.active().take(k) =~= written0 + b0.active().take(
                                k + n,
                            ));
                        }
                        let e = IoError::new(ErrorKind::UnexpectedEos);
                        return Err(AsyncError::new((w2, b3), e));
                    } else {
                        self.inner = write(w2, b3);
                    }
                },
                Err(e) => {
                    return Err(e);
                },
            }
        }
    }
}

/// A future which will flush the internal buffer of `W`.
///
/// This is created by [`flush`].
pub struct Flush<W: AsyncWrite> {
    state: Option<W>,
}

/// Creates a future which will flush the sink asynchronously.
pub fn flush<W: AsyncWrite>(writer: W) -> (f: Flush<W>)
    ensures
        !f.done(),
        f.sink() == writer,
{
    Flush { state: Some(writer) }
}

impl<W: AsyncWrite> Flush<W> {
    /// The operation has already produced its final result.
    pub closed spec fn done(&self) -> bool {
        self.state is None
    }

    /// The sink owned by the operation while in flight.
    pub closed spec fn sink(&self) -> W {
        self.state->Some_0
    }

    /// Attempts one flush; yields the sink.
    pub fn poll(&mut self) -> (r: Result<Async<W>, AsyncIoError<W>>)
        requires
            !old(self).done(),
        ensures
            match r {
                Ok(Async::Ready(w2)) => {
                    &&& final(self).done()
                    &&& w2.written() == old(self).sink().written()
                    &&& w2.spare() == old(self).sink().spare()
                    &&& w2.always_ready() == old(self).sink().always_ready()
                },
                Ok(Async::NotReady) => {
                    &&& !final(self).done()
                    &&& !old(self).sink().always_ready()
                    &&& final(self).sink().written() == old(self).sink().written()
                    &&& final(self).sink().spare() == old(self).sink().spare()
                    &&& final(self).sink().always_ready() == old(self).sink().always_ready()
                },
                Err(e) => {
                    &&& final(self).done()
                    &&& e.spec_error().kind == ErrorKind::Other
                    &&& e.spec_state().written() == old(self).sink().written()
                    &&& e.spec_state().spare() == old(self).sink().spare()
                    &&& e.spec_state().always_ready() == old(self).sink().always_ready()
                },
            },
    {
        let mut writer = match self.state.take() {
            Some(w) => w,
            None => vstd::pervasive::unreached(),
        };
        match writer.flush() {
            Ok(Async::Ready(_)) => Ok(Async::Ready(writer)),
            Ok(Async::NotReady) => {
                self.state = Some(writer);
                Ok(Async::NotReady)
            },
            Err(e) => Err(AsyncError::new(writer, e)),
        }
    }
}

} // verus!
