//! Matching write patterns into a sink.
//!
//! [`PatternWriter`] wraps a byte sink and is the matcher for all writing
//! patterns.  Their contracts pin each outcome to the sink's view: exactly
//! which bytes are appended, and on which sinks the operation reports an
//! unexpected end of stream instead.

use vstd::prelude::*;
use vstd::string::StrSliceExecFns;
use vstd::utf8::encode_utf8;
use crate::codec::{be_bytes, encode_be, encode_be_signed, encode_le, encode_le_signed, le_bytes, lemma_le_bytes_len};
use crate::error::{AsyncError, ErrorKind, IoError};
use crate::io::async_write::{write_all, Flush as FlushOp, flush, WriteAll, WriteBytes};
use crate::io::{Async, AsyncIoError, AsyncWrite};
use crate::matcher::async_match::AsyncMatch;
use crate::matcher::{Matcher, MatchFuture, MatchOutcome};
use crate::pattern::write::{Flush, I24, I40, I48, I56, U24, U40, U48, U56};
use crate::pattern::combinators::{PartialBuf, BE, LE};
use crate::pattern::{Buf, Pattern, Window};

verus! {

/// A matcher to write patterns into the inner writer `W`.
pub struct PatternWriter<W: AsyncWrite> {
    inner: W,
}

/// The matcher that `PatternWriter::new` wraps around a writer.
pub closed spec fn spec_writer<W: AsyncWrite>(inner: W) -> PatternWriter<W> {
    PatternWriter { inner }
}

impl<W: AsyncWrite> PatternWriter<W> {
    /// Makes a new `PatternWriter` instance.
    pub fn new(inner: W) -> (r: Self)
        ensures
            r == spec_writer(inner),
            r.written() == inner.written(),
            r.spare() == inner.spare(),
            <Self as AsyncWrite>::always_ready(&r) == inner.always_ready(),
    {
        PatternWriter { inner }
    }

    /// Unwraps this `PatternWriter`, returning the underlying writer.
    pub fn into_inner(self) -> (r: W)
        ensures
            r.written() == self.written(),
            r.spare() == self.spare(),
            r.always_ready() == <Self as AsyncWrite>::always_ready(&self),
    {
        self.inner
    }
}

impl<W: AsyncWrite> AsyncWrite for PatternWriter<W> {
    closed spec fn written(&self) -> Seq<u8> {
        self.inner.written()
    }

    closed spec fn spare(&self) -> nat {
        self.inner.spare()
    }

    closed spec fn always_ready(&self) -> bool {
        self.inner.always_ready()
    }

    fn write(&mut self, buf: &Window) -> (r: Result<Async<usize>, IoError>) {
        self.inner.write(buf)
    }

    fn flush(&mut self) -> (r: Result<Async<()>, IoError>) {
        self.inner.flush()
    }
}

impl<W: AsyncWrite> Matcher for PatternWriter<W> {
    type Error = IoError;

    closed spec fn always_ready(&self) -> bool {
        self.inner.always_ready()
    }
}

/// The bytes a writing matcher's sink has accepted so far.
pub open spec fn writer_written<W: AsyncWrite>(m: PatternWriter<W>) -> Seq<u8> {
    <PatternWriter<W> as AsyncWrite>::written(&m)
}

/// How many more bytes a writing matcher's sink can accept.
pub open spec fn writer_spare<W: AsyncWrite>(m: PatternWriter<W>) -> nat {
    <PatternWriter<W> as AsyncWrite>::spare(&m)
}

/// Whether a writing matcher's sink never reports "would block".
pub open spec fn writer_ready<W: AsyncWrite>(m: PatternWriter<W>) -> bool {
    <PatternWriter<W> as Matcher>::always_ready(&m)
}

/// A successful write: the sink accepted all of `bytes`.
pub open spec fn bytes_written<W: AsyncWrite>(
    bytes: Seq<u8>,
    written0: Seq<u8>,
    spare0: nat,
    ready0: bool,
    m2: PatternWriter<W>,
) -> bool {
    &&& bytes.len() <= spare0
    &&& writer_written(m2) == written0 + bytes
    &&& writer_spare(m2) == spare0 - bytes.len()
    &&& writer_ready(m2) == ready0
}

/// A failed write of `bytes`: either the sink stopped accepting bytes while
/// some were still pending, or the sink itself reported an error after some
/// prefix had been accepted.
pub open spec fn write_failed<W: AsyncWrite>(
    bytes: Seq<u8>,
    written0: Seq<u8>,
    spare0: nat,
    ready0: bool,
    m2: PatternWriter<W>,
    e: IoError,
) -> bool {
    &&& writer_ready(m2) == ready0
    &&& (e.kind == ErrorKind::UnexpectedEos || e.kind == ErrorKind::Other)
    &&& (e.kind == ErrorKind::UnexpectedEos ==> spare0 < bytes.len() && writer_written(m2)
        == written0 + bytes.take(spare0 as int) && writer_spare(m2) == 0)
    &&& (e.kind == ErrorKind::Other ==> exists|k: int|
        {
            &&& 0 <= k <= bytes.len()
            &&& k <= spare0
            &&& writer_written(m2) == written0 + #[trigger] bytes.take(k)
            &&& writer_spare(m2) == spare0 - k
        })
}

/// A future which will write the active region of a window into `W`
/// completely; its value is the sink's own buffer handed back.
pub struct WriteBuf<W: AsyncWrite> {
    inner: WriteAll<PatternWriter<W>>,
}

impl<W: AsyncWrite> WriteBuf<W> {
    /// Builds the operation: the whole active region of `buf` will be sent.
    pub(crate) fn start(m: PatternWriter<W>, buf: Window) -> (f: Self)
        requires
            buf.wf(),
        ensures
            !f.done(),
            f.wf(),
            f.ready() == writer_ready(m),
            f.written0() == writer_written(m),
            f.spare0() == writer_spare(m),
            f.bytes() == buf.active(),
            f.buf0() == buf.buf(),
    {
        WriteBuf { inner: write_all(m, buf) }
    }

    /// The bytes this operation sends.
    pub closed spec fn bytes(&self) -> Seq<u8> {
        self.inner.orig_window().active()
    }

    /// The whole buffer behind the window being sent.
    pub closed spec fn buf0(&self) -> Seq<u8> {
        self.inner.orig_window().buf()
    }

    /// The sink's contents at bind time.
    pub closed spec fn written0(&self) -> Seq<u8> {
        self.inner.orig_written()
    }

    /// The sink's spare capacity at bind time.
    pub closed spec fn spare0(&self) -> nat {
        self.inner.orig_spare()
    }
}

impl<W: AsyncWrite> MatchFuture<PatternWriter<W>> for WriteBuf<W> {
    type Value = Vec<u8>;

    closed spec fn done(&self) -> bool {
        self.inner.done()
    }

    closed spec fn wf(&self) -> bool {
        &&& self.inner.wf()
        &&& self.inner.orig_window().wf()
    }

    closed spec fn ready(&self) -> bool {
        self.inner.ready()
    }

    closed spec fn admits(&self, o: MatchOutcome<PatternWriter<W>, Vec<u8>, IoError>) -> bool {
        match o {
            MatchOutcome::Matched(m2, v) => {
                &&& bytes_written(self.bytes(), self.written0(), self.spare0(), self.ready(), m2)
                &&& v@ == self.buf0()
            },
            MatchOutcome::Failed(m2, e) => write_failed(
                self.bytes(),
                self.written0(),
                self.spare0(),
                self.ready(),
                m2,
                e,
            ),
        }
    }

    fn poll(&mut self) -> (r: Result<
        Async<(PatternWriter<W>, Vec<u8>)>,
        AsyncError<PatternWriter<W>, IoError>,
    >) {
        let ghost bs = self.bytes();
        let ghost w0 = self.inner.orig_window();
        let ghost written0 = self.written0();
        let ghost spare0 = self.spare0();
        match self.inner.poll() {
            Ok(Async::Ready((m2, b2))) => {
                let v = b2.into_inner();
                Ok(Async::Ready((m2, v)))
            },
            Ok(Async::NotReady) => Ok(Async::NotReady),
            Err(e) => {
                let (st, err) = e.unwrap();
                let (m2, _w) = st;
                proof {
                    if err.kind == ErrorKind::Other {
                        let k = choose|k: int|
                            {
                                &&& 0 <= k <= w0.spec_len()
                                &&& k <= spare0
                                &&& writer_written(m2) == written0 + w0.active().take(k)
                                &&& writer_spare(m2) == spare0 - k
                                &&& _w.wf()
                                &&& _w.buf() == w0.buf()
                                &&& _w.spec_start() == w0.spec_start() + k
                                &&& _w.spec_end() == w0.spec_end()
                            };
                        assert(writer_written(m2) == written0 + bs.take(k));
                    }
                }
                Err(AsyncError::new(m2, err))
            },
        }
    }
}

/// A future which will write a fixed-width number into `W`: the encoded
/// bytes, fully.
pub struct WriteFixnum<W: AsyncWrite> {
    inner: WriteAll<PatternWriter<W>>,
}

impl<W: AsyncWrite> WriteFixnum<W> {
    /// Builds the operation: the whole of `bytes` will be sent.
    pub(crate) fn start(m: PatternWriter<W>, bytes: Vec<u8>) -> (f: Self)
        ensures
            !f.done(),
            f.wf(),
            f.ready() == writer_ready(m),
            f.written0() == writer_written(m),
            f.spare0() == writer_spare(m),
            f.bytes() == bytes@,
    {
        let w = Window::new(bytes);
        let f = WriteFixnum { inner: write_all(m, w) };
        proof {
            assert(f.bytes() =~= bytes@);
        }
        f
    }

    /// The bytes this operation sends.
    pub closed spec fn bytes(&self) -> Seq<u8> {
        self.inner.orig_window().active()
    }

    /// The sink's contents at bind time.
    pub closed spec fn written0(&self) -> Seq<u8> {
        self.inner.orig_written()
    }

    /// The sink's spare capacity at bind time.
    pub closed spec fn spare0(&self) -> nat {
        self.inner.orig_spare()
    }
}

impl<W: AsyncWrite> MatchFuture<PatternWriter<W>> for WriteFixnum<W> {
    type Value = ();

    closed spec fn done(&self) -> bool {
        self.inner.done()
    }

    closed spec fn wf(&self) -> bool {
        &&& self.inner.wf()
        &&& self.inner.orig_window().wf()
    }

    closed spec fn ready(&self) -> bool {
        self.inner.ready()
    }

    closed spec fn admits(&self, o: MatchOutcome<PatternWriter<W>, (), IoError>) -> bool {
        match o {
            MatchOutcome::Matched(m2, v) => bytes_written(
                self.bytes(),
                self.written0(),
                self.spare0(),
                self.ready(),
                m2,
            ),
            MatchOutcome::Failed(m2, e) => write_failed(
                self.bytes(),
                self.written0(),
                self.spare0(),
                self.ready(),
                m2,
                e,
            ),
        }
    }

    fn poll(&mut self) -> (r: Result<
        Async<(PatternWriter<W>, ())>,
        AsyncError<PatternWriter<W>, IoError>,
    >) {
        let ghost bs = self.bytes();
        let ghost w0 = self.inner.orig_window();
        let ghost written0 = self.written0();
        let ghost spare0 = self.spare0();
        match self.inner.poll() {
            Ok(Async::Ready((m2, _b2))) => Ok(Async::Ready((m2, ()))),
            Ok(Async::NotReady) => Ok(Async::NotReady),
            Err(e) => {
                let (st, err) = e.unwrap();
                let (m2, _w) = st;
                proof {
                    if err.kind == ErrorKind::Other {
                        let k = choose|k: int|
                            {
                                &&& 0 <= k <= w0.spec_len()
                                &&& k <= spare0
                                &&& writer_written(m2) == written0 + w0.active().take(k)
                                &&& writer_spare(m2) == spare0 - k
                                &&& _w.wf()
                                &&& _w.buf() == w0.buf()
                                &&& _w.spec_start() == w0.spec_start() + k
                                &&& _w.spec_end() == w0.spec_end()
                            };
                        assert(writer_written(m2) == written0 + bs.take(k));
                    }
                }
                Err(AsyncError::new(m2, err))
            },
        }
    }
}

/// What a fixed-width numeric write operation admits, over its public views.
pub broadcast proof fn lemma_write_fixnum_admits<W: AsyncWrite>(
    f: WriteFixnum<W>,
    o: MatchOutcome<PatternWriter<W>, (), IoError>,
)
    ensures
        #[trigger] f.admits(o) <==> match o {
            MatchOutcome::Matched(m2, v) => bytes_written(
                f.bytes(),
                f.written0(),
                f.spare0(),
                f.ready(),
                m2,
            ),
            MatchOutcome::Failed(m2, e) => write_failed(
                f.bytes(),
                f.written0(),
                f.spare0(),
                f.ready(),
                m2,
                e,
            ),
        },
{
}

/// A future which will flush the sink.
pub struct WriteFlush<W: AsyncWrite> {
    inner: FlushOp<PatternWriter<W>>,
}

impl<W: AsyncWrite> MatchFuture<PatternWriter<W>> for WriteFlush<W> {
    type Value = ();

    closed spec fn done(&self) -> bool {
        self.inner.done()
    }

    closed spec fn wf(&self) -> bool {
        true
    }

    closed spec fn ready(&self) -> bool {
        writer_ready(self.inner.sink())
    }

    closed spec fn admits(&self, o: MatchOutcome<PatternWriter<W>, (), IoError>) -> bool {
        match o {
            MatchOutcome::Matched(m2, v) => {
                &&& writer_written(m2) == writer_written(self.inner.sink())
                &&& writer_spare(m2) == writer_spare(self.inner.sink())
                &&& writer_ready(m2) == self.ready()
            },
            MatchOutcome::Failed(m2, e) => {
                &&& e.kind == ErrorKind::Other
                &&& writer_written(m2) == writer_written(self.inner.sink())
                &&& writer_spare(m2) == writer_spare(self.inner.sink())
                &&& writer_ready(m2) == self.ready()
            },
        }
    }

    fn poll(&mut self) -> (r: Result<
        Async<(PatternWriter<W>, ())>,
        AsyncError<PatternWriter<W>, IoError>,
    >) {
        match self.inner.poll() {
            Ok(Async::Ready(m2)) => Ok(Async::Ready((m2, ()))),
            Ok(Async::NotReady) => Ok(Async::NotReady),
            Err(e) => Err(e),
        }
    }
}

/// Flushing promises that the sink's accepted bytes are unchanged.
impl<W: AsyncWrite> AsyncMatch<PatternWriter<W>> for Flush {
    type Future = WriteFlush<W>;

    open spec fn admits(
        self,
        m: PatternWriter<W>,
        o: MatchOutcome<PatternWriter<W>, (), IoError>,
    ) -> bool {
        match o {
            MatchOutcome::Matched(m2, v) => {
                &&& writer_written(m2) == writer_written(m)
                &&& writer_spare(m2) == writer_spare(m)
                &&& writer_ready(m2) == writer_ready(m)
            },
            MatchOutcome::Failed(m2, e) => {
                &&& e.kind == ErrorKind::Other
                &&& writer_written(m2) == writer_written(m)
                &&& writer_spare(m2) == writer_spare(m)
                &&& writer_ready(m2) == writer_ready(m)
            },
        }
    }

    open spec fn pre(self) -> bool {
        true
    }

    fn async_match(self, matcher: PatternWriter<W>) -> (f: Self::Future) {
        WriteFlush { inner: flush(matcher) }
    }
}

/// Writing a byte vector sends all of its bytes and hands the vector back.
impl<W: AsyncWrite> AsyncMatch<PatternWriter<W>> for Vec<u8> {
    type Future = WriteBuf<W>;

    open spec fn admits(
        self,
        m: PatternWriter<W>,
        o: MatchOutcome<PatternWriter<W>, Vec<u8>, IoError>,
    ) -> bool {
        match o {
            MatchOutcome::Matched(m2, v) => {
                &&& bytes_written(self@, writer_written(m), writer_spare(m), writer_ready(m), m2)
                &&& v@ == self@
            },
            MatchOutcome::Failed(m2, e) => write_failed(
                self@,
                writer_written(m),
                writer_spare(m),
                writer_ready(m),
                m2,
                e,
            ),
        }
    }

    open spec fn pre(self) -> bool {
        true
    }

    fn async_match(self, matcher: PatternWriter<W>) -> (f: Self::Future) {
        let ghost gs = self@;
        let w = Window::new(self);
        proof {
            assert(w.active() =~= gs);
        }
        WriteBuf::start(matcher, w)
    }
}

/// Writing a `Buf` sends all of its bytes and hands the buffer back.
impl<W: AsyncWrite> AsyncMatch<PatternWriter<W>> for Buf {
    type Future = WriteBuf<W>;

    open spec fn admits(
        self,
        m: PatternWriter<W>,
        o: MatchOutcome<PatternWriter<W>, Vec<u8>, IoError>,
    ) -> bool {
        match o {
            MatchOutcome::Matched(m2, v) => {
                &&& bytes_written(self.0@, writer_written(m), writer_spare(m), writer_ready(m), m2)
                &&& v@ == self.0@
            },
            MatchOutcome::Failed(m2, e) => write_failed(
                self.0@,
                writer_written(m),
                writer_spare(m),
                writer_ready(m),
                m2,
                e,
            ),
        }
    }

    open spec fn pre(self) -> bool {
        true
    }

    fn async_match(self, matcher: PatternWriter<W>) -> (f: Self::Future) {
        let ghost gs = self.0@;
        let w = Window::new(self.0);
        proof {
            assert(w.active() =~= gs);
        }
        WriteBuf::start(matcher, w)
    }
}

/// The encoded bytes of a fixed-width numeric write pattern: the low `n`
/// bytes of the value, two's complement for the signed widths, in the given
/// byte order.
pub open spec fn fixnum_bytes(be: bool, v: int, n: nat) -> Seq<u8> {
    if be {
        be_bytes(v, n)
    } else {
        le_bytes(v, n)
    }
}

/// Writes an 8-bit unsigned integer in single-byte order.
impl<W: AsyncWrite> AsyncMatch<PatternWriter<W>> for u8 {
    type Future = WriteFixnum<W>;

    open spec fn admits(
        self,
        m: PatternWriter<W>,
        o: MatchOutcome<PatternWriter<W>, (), IoError>,
    ) -> bool {
        match o {
            MatchOutcome::Matched(m2, v) => bytes_written(
                fixnum_bytes(true, self as int, 1),
                writer_written(m),
                writer_spare(m),
                writer_ready(m),
                m2,
            ),
            MatchOutcome::Failed(m2, e) => write_failed(
                fixnum_bytes(true, self as int, 1),
                writer_written(m),
                writer_spare(m),
                writer_ready(m),
                m2,
                e,
            ),
        }
    }

    open spec fn pre(self) -> bool {
        true
    }

    fn async_match(self, matcher: PatternWriter<W>) -> (f: Self::Future) {
        let bytes = encode_be(self as u64, 1);
        WriteFixnum::start(matcher, bytes)
    }
}

/// Writes an 8-bit signed integer in single-byte order.
impl<W: AsyncWrite> AsyncMatch<PatternWriter<W>> for i8 {
    type Future = WriteFixnum<W>;

    open spec fn admits(
        self,
        m: PatternWriter<W>,
        o: MatchOutcome<PatternWriter<W>, (), IoError>,
    ) -> bool {
        match o {
            MatchOutcome::Matched(m2, v) => bytes_written(
                fixnum_bytes(true, self as int, 1),
                writer_written(m),
                writer_spare(m),
                writer_ready(m),
                m2,
            ),
            MatchOutcome::Failed(m2, e) => write_failed(
                fixnum_bytes(true, self as int, 1),
                writer_written(m),
                writer_spare(m),
                writer_ready(m),
                m2,
                e,
            ),
        }
    }

    open spec fn pre(self) -> bool {
        true
    }

    fn async_match(self, matcher: PatternWriter<W>) -> (f: Self::Future) {
        let bytes = encode_be_signed(self as i64, 1);
        WriteFixnum::start(matcher, bytes)
    }
}

/// Writes a 16-bit unsigned integer in big-endian order.
impl<W: AsyncWrite> AsyncMatch<PatternWriter<W>> for BE<u16> {
    type Future = WriteFixnum<W>;

    open spec fn admits(
        self,
        m: PatternWriter<W>,
        o: MatchOutcome<PatternWriter<W>, (), IoError>,
    ) -> bool {
        match o {
            MatchOutcome::Matched(m2, v) => bytes_written(
                fixnum_bytes(true, self.0 as int, 2),
                writer_written(m),
                writer_spare(m),
                writer_ready(m),
                m2,
            ),
            MatchOutcome::Failed(m2, e) => write_failed(
                fixnum_bytes(true, self.0 as int, 2),
                writer_written(m),
                writer_spare(m),
                writer_ready(m),
                m2,
                e,
            ),
        }
    }

    open spec fn pre(self) -> bool {
        true
    }

    fn async_match(self, matcher: PatternWriter<W>) -> (f: Self::Future) {
        let bytes = encode_be(self.0 as u64, 2);
        WriteFixnum::start(matcher, bytes)
    }
}

/// Writes a 16-bit unsigned integer in little-endian order.
impl<W: AsyncWrite> AsyncMatch<PatternWriter<W>> for LE<u16> {
    type Future = WriteFixnum<W>;

    open spec fn admits(
        self,
        m: PatternWriter<W>,
        o: MatchOutcome<PatternWriter<W>, (), IoError>,
    ) -> bool {
        match o {
            MatchOutcome::Matched(m2, v) => bytes_written(
                fixnum_bytes(false, self.0 as int, 2),
                writer_written(m),
                writer_spare(m),
                writer_ready(m),
                m2,
            ),
            MatchOutcome::Failed(m2, e) => write_failed(
                fixnum_bytes(false, self.0 as int, 2),
                writer_written(m),
                writer_spare(m),
                writer_ready(m),
                m2,
                e,
            ),
        }
    }

    open spec fn pre(self) -> bool {
        true
    }

    fn async_match(self, matcher: PatternWriter<W>) -> (f: Self::Future) {
        let bytes = encode_le(self.0 as u64, 2);
        WriteFixnum::start(matcher, bytes)
    }
}

/// Writes a 16-bit signed integer in big-endian order.
impl<W: AsyncWrite> AsyncMatch<PatternWriter<W>> for BE<i16> {
    type Future = WriteFixnum<W>;

    open spec fn admits(
        self,
        m: PatternWriter<W>,
        o: MatchOutcome<PatternWriter<W>, (), IoError>,
    ) -> bool {
        match o {
            MatchOutcome::Matched(m2, v) => bytes_written(
                fixnum_bytes(true, self.0 as int, 2),
                writer_written(m),
                writer_spare(m),
                writer_ready(m),
                m2,
            ),
            MatchOutcome::Failed(m2, e) => write_failed(
                fixnum_bytes(true, self.0 as int, 2),
                writer_written(m),
                writer_spare(m),
                writer_ready(m),
                m2,
                e,
            ),
        }
    }

    open spec fn pre(self) -> bool {
        true
    }

    fn async_match(self, matcher: PatternWriter<W>) -> (f: Self::Future) {
        let bytes = encode_be_signed(self.0 as i64, 2);
        WriteFixnum::start(matcher, bytes)
    }
}

/// Writes a 16-bit signed integer in little-endian order.
impl<W: AsyncWrite> AsyncMatch<PatternWriter<W>> for LE<i16> {
    type Future = WriteFixnum<W>;

    open spec fn admits(
        self,
        m: PatternWriter<W>,
        o: MatchOutcome<PatternWriter<W>, (), IoError>,
    ) -> bool {
        match o {
            MatchOutcome::Matched(m2, v) => bytes_written(
                fixnum_bytes(false, self.0 as int, 2),
                writer_written(m),
                writer_spare(m),
                writer_ready(m),
                m2,
            ),
            MatchOutcome::Failed(m2, e) => write_failed(
                fixnum_bytes(false, self.0 as int, 2),
                writer_written(m),
                writer_spare(m),
                writer_ready(m),
                m2,
                e,
            ),
        }
    }

    open spec fn pre(self) -> bool {
        true
    }

    fn async_match(self, matcher: PatternWriter<W>) -> (f: Self::Future) {
        let bytes = encode_le_signed(self.0 as i64, 2);
        WriteFixnum::start(matcher, bytes)
    }
}

/// Writes a 32-bit unsigned integer in big-endian order.
impl<W: AsyncWrite> AsyncMatch<PatternWriter<W>> for BE<u32> {
    type Future = WriteFixnum<W>;

    open spec fn admits(
        self,
        m: PatternWriter<W>,
        o: MatchOutcome<PatternWriter<W>, (), IoError>,
    ) -> bool {
        match o {
            MatchOutcome::Matched(m2, v) => bytes_written(
                fixnum_bytes(true, self.0 as int, 4),
                writer_written(m),
                writer_spare(m),
                writer_ready(m),
                m2,
            ),
            MatchOutcome::Failed(m2, e) => write_failed(
                fixnum_bytes(true, self.0 as int, 4),
                writer_written(m),
                writer_spare(m),
                writer_ready(m),
                m2,
                e,
            ),
        }
    }

    open spec fn pre(self) -> bool {
        true
    }

    fn async_match(self, matcher: PatternWriter<W>) -> (f: Self::Future) {
        let bytes = encode_be(self.0 as u64, 4);
        WriteFixnum::start(matcher, bytes)
    }
}

/// Writes a 32-bit unsigned integer in little-endian order.
impl<W: AsyncWrite> AsyncMatch<PatternWriter<W>> for LE<u32> {
    type Future = WriteFixnum<W>;

    open spec fn admits(
        self,
        m: PatternWriter<W>,
        o: MatchOutcome<PatternWriter<W>, (), IoError>,
    ) -> bool {
        match o {
            MatchOutcome::Matched(m2, v) => bytes_written(
                fixnum_bytes(false, self.0 as int, 4),
                writer_written(m),
                writer_spare(m),
                writer_ready(m),
                m2,
            ),
            MatchOutcome::Failed(m2, e) => write_failed(
                fixnum_bytes(false, self.0 as int, 4),
                writer_written(m),
                writer_spare(m),
                writer_ready(m),
                m2,
                e,
            ),
        }
    }

    open spec fn pre(self) -> bool {
        true
    }

    fn async_match(self, matcher: PatternWriter<W>) -> (f: Self::Future) {
        let bytes = encode_le(self.0 as u64, 4);
        WriteFixnum::start(matcher, bytes)
    }
}

/// Writes a 32-bit signed integer in big-endian order.
impl<W: AsyncWrite> AsyncMatch<PatternWriter<W>> for BE<i32> {
    type Future = WriteFixnum<W>;

    open spec fn admits(
        self,
        m: PatternWriter<W>,
        o: MatchOutcome<PatternWriter<W>, (), IoError>,
    ) -> bool {
        match o {
            MatchOutcome::Matched(m2, v) => bytes_written(
                fixnum_bytes(true, self.0 as int, 4),
                writer_written(m),
                writer_spare(m),
                writer_ready(m),
                m2,
            ),
            MatchOutcome::Failed(m2, e) => write_failed(
                fixnum_bytes(true, self.0 as int, 4),
                writer_written(m),
                writer_spare(m),
                writer_ready(m),
                m2,
                e,
            ),
        }
    }

    open spec fn pre(self) -> bool {
        true
    }

    fn async_match(self, matcher: PatternWriter<W>) -> (f: Self::Future) {
        let bytes = encode_be_signed(self.0 as i64, 4);
        WriteFixnum::start(matcher, bytes)
    }
}

/// Writes a 32-bit signed integer in little-endian order.
impl<W: AsyncWrite> AsyncMatch<PatternWriter<W>> for LE<i32> {
    type Future = WriteFixnum<W>;

    open spec fn admits(
        self,
        m: PatternWriter<W>,
        o: MatchOutcome<PatternWriter<W>, (), IoError>,
    ) -> bool {
        match o {
            MatchOutcome::Matched(m2, v) => bytes_written(
                fixnum_bytes(false, self.0 as int, 4),
                writer_written(m),
                writer_spare(m),
                writer_ready(m),
                m2,
            ),
            MatchOutcome::Failed(m2, e) => write_failed(
                fixnum_bytes(false, self.0 as int, 4),
                writer_written(m),
                writer_spare(m),
                writer_ready(m),
                m2,
                e,
            ),
        }
    }

    open spec fn pre(self) -> bool {
        true
    }

    fn async_match(self, matcher: PatternWriter<W>) -> (f: Self::Future) {
        let bytes = encode_le_signed(self.0 as i64, 4);
        WriteFixnum::start(matcher, bytes)
    }
}

/// Writes a 64-bit unsigned integer in big-endian order.
impl<W: AsyncWrite> AsyncMatch<PatternWriter<W>> for BE<u64> {
    type Future = WriteFixnum<W>;

    open spec fn admits(
        self,
        m: PatternWriter<W>,
        o: MatchOutcome<PatternWriter<W>, (), IoError>,
    ) -> bool {
        match o {
            MatchOutcome::Matched(m2, v) => bytes_written(
                fixnum_bytes(true, self.0 as int, 8),
                writer_written(m),
                writer_spare(m),
                writer_ready(m),
                m2,
            ),
            MatchOutcome::Failed(m2, e) => write_failed(
                fixnum_bytes(true, self.0 as int, 8),
                writer_written(m),
                writer_spare(m),
                writer_ready(m),
                m2,
                e,
            ),
        }
    }

    open spec fn pre(self) -> bool {
        true
    }

    fn async_match(self, matcher: PatternWriter<W>) -> (f: Self::Future) {
        let bytes = encode_be(self.0, 8);
        WriteFixnum::start(matcher, bytes)
    }
}

/// Writes a 64-bit unsigned integer in little-endian order.
impl<W: AsyncWrite> AsyncMatch<PatternWriter<W>> for LE<u64> {
    type Future = WriteFixnum<W>;

    open spec fn admits(
        self,
        m: PatternWriter<W>,
        o: MatchOutcome<PatternWriter<W>, (), IoError>,
    ) -> bool {
        match o {
            MatchOutcome::Matched(m2, v) => bytes_written(
                fixnum_bytes(false, self.0 as int, 8),
                writer_written(m),
                writer_spare(m),
                writer_ready(m),
                m2,
            ),
            MatchOutcome::Failed(m2, e) => write_failed(
                fixnum_bytes(false, self.0 as int, 8),
                writer_written(m),
                writer_spare(m),
                writer_ready(m),
                m2,
                e,
            ),
        }
    }

    open spec fn pre(self) -> bool {
        true
    }

    fn async_match(self, matcher: PatternWriter<W>) -> (f: Self::Future) {
        let bytes = encode_le(self.0, 8);
        WriteFixnum::start(matcher, bytes)
    }
}

/// Writes a 64-bit signed integer in big-endian order.
impl<W: AsyncWrite> AsyncMatch<PatternWriter<W>> for BE<i64> {
    type Future = WriteFixnum<W>;

    open spec fn admits(
        self,
        m: PatternWriter<W>,
        o: MatchOutcome<PatternWriter<W>, (), IoError>,
    ) -> bool {
        match o {
            MatchOutcome::Matched(m2, v) => bytes_written(
                fixnum_bytes(true, self.0 as int, 8),
                writer_written(m),
                writer_spare(m),
                writer_ready(m),
                m2,
            ),
            MatchOutcome::Failed(m2, e) => write_failed(
                fixnum_bytes(true, self.0 as int, 8),
                writer_written(m),
                writer_spare(m),
                writer_ready(m),
                m2,
                e,
            ),
        }
    }

    open spec fn pre(self) -> bool {
        true
    }

    fn async_match(self, matcher: PatternWriter<W>) -> (f: Self::Future) {
        let bytes = encode_be_signed(self.0, 8);
        WriteFixnum::start(matcher, bytes)
    }
}

/// Writes a 64-bit signed integer in little-endian order.
impl<W: AsyncWrite> AsyncMatch<PatternWriter<W>> for LE<i64> {
    type Future = WriteFixnum<W>;

    open spec fn admits(
        self,
        m: PatternWriter<W>,
        o: MatchOutcome<PatternWriter<W>, (), IoError>,
    ) -> bool {
        match o {
            MatchOutcome::Matched(m2, v) => bytes_written(
                fixnum_bytes(false, self.0 as int, 8),
                writer_written(m),
                writer_spare(m),
                writer_ready(m),
                m2,
            ),
            MatchOutcome::Failed(m2, e) => write_failed(
                fixnum_bytes(false, self.0 as int, 8),
                writer_written(m),
                writer_spare(m),
                writer_ready(m),
                m2,
                e,
            ),
        }
    }

    open spec fn pre(self) -> bool {
        true
    }

    fn async_match(self, matcher: PatternWriter<W>) -> (f: Self::Future) {
        let bytes = encode_le_signed(self.0, 8);
        WriteFixnum::start(matcher, bytes)
    }
}

/// Writes a 24-bit unsigned integer in big-endian order.
impl<W: AsyncWrite> AsyncMatch<PatternWriter<W>> for BE<U24> {
    type Future = WriteFixnum<W>;

    open spec fn admits(
        self,
        m: PatternWriter<W>,
        o: MatchOutcome<PatternWriter<W>, (), IoError>,
    ) -> bool {
        match o {
            MatchOutcome::Matched(m2, v) => bytes_written(
                fixnum_bytes(true, (self.0).0 as int, 3),
                writer_written(m),
                writer_spare(m),
                writer_ready(m),
                m2,
            ),
            MatchOutcome::Failed(m2, e) => write_failed(
                fixnum_bytes(true, (self.0).0 as int, 3),
                writer_written(m),
                writer_spare(m),
                writer_ready(m),
                m2,
                e,
            ),
        }
    }

    open spec fn pre(self) -> bool {
        true
    }

    fn async_match(self, matcher: PatternWriter<W>) -> (f: Self::Future) {
        let bytes = encode_be((self.0).0 as u64, 3);
        WriteFixnum::start(matcher, bytes)
    }
}

/// Writes a 24-bit unsigned integer in little-endian order.
impl<W: AsyncWrite> AsyncMatch<PatternWriter<W>> for LE<U24> {
    type Future = WriteFixnum<W>;

    open spec fn admits(
        self,
        m: PatternWriter<W>,
        o: MatchOutcome<PatternWriter<W>, (), IoError>,
    ) -> bool {
        match o {
            MatchOutcome::Matched(m2, v) => bytes_written(
                fixnum_bytes(false, (self.0).0 as int, 3),
                writer_written(m),
                writer_spare(m),
                writer_ready(m),
                m2,
            ),
            MatchOutcome::Failed(m2, e) => write_failed(
                fixnum_bytes(false, (self.0).0 as int, 3),
                writer_written(m),
                writer_spare(m),
                writer_ready(m),
                m2,
                e,
            ),
        }
    }

    open spec fn pre(self) -> bool {
        true
    }

    fn async_match(self, matcher: PatternWriter<W>) -> (f: Self::Future) {
        let bytes = encode_le((self.0).0 as u64, 3);
        WriteFixnum::start(matcher, bytes)
    }
}

/// Writes a 24-bit signed integer in big-endian order.
impl<W: AsyncWrite> AsyncMatch<PatternWriter<W>> for BE<I24> {
    type Future = WriteFixnum<W>;

    open spec fn admits(
        self,
        m: PatternWriter<W>,
        o: MatchOutcome<PatternWriter<W>, (), IoError>,
    ) -> bool {
        match o {
            MatchOutcome::Matched(m2, v) => bytes_written(
                fixnum_bytes(true, (self.0).0 as int, 3),
                writer_written(m),
                writer_spare(m),
                writer_ready(m),
                m2,
            ),
            MatchOutcome::Failed(m2, e) => write_failed(
                fixnum_bytes(true, (self.0).0 as int, 3),
                writer_written(m),
                writer_spare(m),
                writer_ready(m),
                m2,
                e,
            ),
        }
    }

    open spec fn pre(self) -> bool {
        true
    }

    fn async_match(self, matcher: PatternWriter<W>) -> (f: Self::Future) {
        let bytes = encode_be_signed((self.0).0 as i64, 3);
        WriteFixnum::start(matcher, bytes)
    }
}

/// Writes a 24-bit signed integer in little-endian order.
impl<W: AsyncWrite> AsyncMatch<PatternWriter<W>> for LE<I24> {
    type Future = WriteFixnum<W>;

    open spec fn admits(
        self,
        m: PatternWriter<W>,
        o: MatchOutcome<PatternWriter<W>, (), IoError>,
    ) -> bool {
        match o {
            MatchOutcome::Matched(m2, v) => bytes_written(
                fixnum_bytes(false, (self.0).0 as int, 3),
                writer_written(m),
                writer_spare(m),
                writer_ready(m),
                m2,
            ),
            MatchOutcome::Failed(m2, e) => write_failed(
                fixnum_bytes(false, (self.0).0 as int, 3),
                writer_written(m),
                writer_spare(m),
                writer_ready(m),
                m2,
                e,
            ),
        }
    }

    open spec fn pre(self) -> bool {
        true
    }

    fn async_match(self, matcher: PatternWriter<W>) -> (f: Self::Future) {
        let bytes = encode_le_signed((self.0).0 as i64, 3);
        WriteFixnum::start(matcher, bytes)
    }
}

/// Writes a 40-bit unsigned integer in big-endian order.
impl<W: AsyncWrite> AsyncMatch<PatternWriter<W>> for BE<U40> {
    type Future = WriteFixnum<W>;

    open spec fn admits(
        self,
        m: PatternWriter<W>,
        o: MatchOutcome<PatternWriter<W>, (), IoError>,
    ) -> bool {
        match o {
            MatchOutcome::Matched(m2, v) => bytes_written(
                fixnum_bytes(true, (self.0).0 as int, 5),
                writer_written(m),
                writer_spare(m),
                writer_ready(m),
                m2,
            ),
            MatchOutcome::Failed(m2, e) => write_failed(
                fixnum_bytes(true, (self.0).0 as int, 5),
                writer_written(m),
                writer_spare(m),
                writer_ready(m),
                m2,
                e,
            ),
        }
    }

    open spec fn pre(self) -> bool {
        true
    }

    fn async_match(self, matcher: PatternWriter<W>) -> (f: Self::Future) {
        let bytes = encode_be((self.0).0 as u64, 5);
        WriteFixnum::start(matcher, bytes)
    }
}

/// Writes a 40-bit unsigned integer in little-endian order.
impl<W: AsyncWrite> AsyncMatch<PatternWriter<W>> for LE<U40> {
    type Future = WriteFixnum<W>;

    open spec fn admits(
        self,
        m: PatternWriter<W>,
        o: MatchOutcome<PatternWriter<W>, (), IoError>,
    ) -> bool {
        match o {
            MatchOutcome::Matched(m2, v) => bytes_written(
                fixnum_bytes(false, (self.0).0 as int, 5),
                writer_written(m),
                writer_spare(m),
                writer_ready(m),
                m2,
            ),
            MatchOutcome::Failed(m2, e) => write_failed(
                fixnum_bytes(false, (self.0).0 as int, 5),
                writer_written(m),
                writer_spare(m),
                writer_ready(m),
                m2,
                e,
            ),
        }
    }

    open spec fn pre(self) -> bool {
        true
    }

    fn async_match(self, matcher: PatternWriter<W>) -> (f: Self::Future) {
        let bytes = encode_le((self.0).0 as u64, 5);
        WriteFixnum::start(matcher, bytes)
    }
}

/// Writes a 40-bit signed integer in big-endian order.
impl<W: AsyncWrite> AsyncMatch<PatternWriter<W>> for BE<I40> {
    type Future = WriteFixnum<W>;

    open spec fn admits(
        self,
        m: PatternWriter<W>,
        o: MatchOutcome<PatternWriter<W>, (), IoError>,
    ) -> bool {
        match o {
            MatchOutcome::Matched(m2, v) => bytes_written(
                fixnum_bytes(true, (self.0).0 as int, 5),
                writer_written(m),
                writer_spare(m),
                writer_ready(m),
                m2,
            ),
            MatchOutcome::Failed(m2, e) => write_failed(
                fixnum_bytes(true, (self.0).0 as int, 5),
                writer_written(m),
                writer_spare(m),
                writer_ready(m),
                m2,
                e,
            ),
        }
    }

    open spec fn pre(self) -> bool {
        true
    }

    fn async_match(self, matcher: PatternWriter<W>) -> (f: Self::Future) {
        let bytes = encode_be_signed((self.0).0 as i64, 5);
        WriteFixnum::start(matcher, bytes)
    }
}

/// Writes a 40-bit signed integer in little-endian order.
impl<W: AsyncWrite> AsyncMatch<PatternWriter<W>> for LE<I40> {
    type Future = WriteFixnum<W>;

    open spec fn admits(
        self,
        m: PatternWriter<W>,
        o: MatchOutcome<PatternWriter<W>, (), IoError>,
    ) -> bool {
        match o {
            MatchOutcome::Matched(m2, v) => bytes_written(
                fixnum_bytes(false, (self.0).0 as int, 5),
                writer_written(m),
                writer_spare(m),
                writer_ready(m),
                m2,
            ),
            MatchOutcome::Failed(m2, e) => write_failed(
                fixnum_bytes(false, (self.0).0 as int, 5),
                writer_written(m),
                writer_spare(m),
                writer_ready(m),
                m2,
                e,
            ),
        }
    }

    open spec fn pre(self) -> bool {
        true
    }

    fn async_match(self, matcher: PatternWriter<W>) -> (f: Self::Future) {
        let bytes = encode_le_signed((self.0).0 as i64, 5);
        WriteFixnum::start(matcher, bytes)
    }
}

/// Writes a 48-bit unsigned integer in big-endian order.
impl<W: AsyncWrite> AsyncMatch<PatternWriter<W>> for BE<U48> {
    type Future = WriteFixnum<W>;

    open spec fn admits(
        self,
        m: PatternWriter<W>,
        o: MatchOutcome<PatternWriter<W>, (), IoError>,
    ) -> bool {
        match o {
            MatchOutcome::Matched(m2, v) => bytes_written(
                fixnum_bytes(true, (self.0).0 as int, 6),
                writer_written(m),
                writer_spare(m),
                writer_ready(m),
                m2,
            ),
            MatchOutcome::Failed(m2, e) => write_failed(
                fixnum_bytes(true, (self.0).0 as int, 6),
                writer_written(m),
                writer_spare(m),
                writer_ready(m),
                m2,
                e,
            ),
        }
    }

    open spec fn pre(self) -> bool {
        true
    }

    fn async_match(self, matcher: PatternWriter<W>) -> (f: Self::Future) {
        let bytes = encode_be((self.0).0 as u64, 6);
        WriteFixnum::start(matcher, bytes)
    }
}

/// Writes a 48-bit unsigned integer in little-endian order.
impl<W: AsyncWrite> AsyncMatch<PatternWriter<W>> for LE<U48> {
    type Future = WriteFixnum<W>;

    open spec fn admits(
        self,
        m: PatternWriter<W>,
        o: MatchOutcome<PatternWriter<W>, (), IoError>,
    ) -> bool {
        match o {
            MatchOutcome::Matched(m2, v) => bytes_written(
                fixnum_bytes(false, (self.0).0 as int, 6),
                writer_written(m),
                writer_spare(m),
                writer_ready(m),
                m2,
            ),
            MatchOutcome::Failed(m2, e) => write_failed(
                fixnum_bytes(false, (self.0).0 as int, 6),
                writer_written(m),
                writer_spare(m),
                writer_ready(m),
                m2,
                e,
            ),
        }
    }

    open spec fn pre(self) -> bool {
        true
    }

    fn async_match(self, matcher: PatternWriter<W>) -> (f: Self::Future) {
        let bytes = encode_le((self.0).0 as u64, 6);
        WriteFixnum::start(matcher, bytes)
    }
}

/// Writes a 48-bit signed integer in big-endian order.
impl<W: AsyncWrite> AsyncMatch<PatternWriter<W>> for BE<I48> {
    type Future = WriteFixnum<W>;

    open spec fn admits(
        self,
        m: PatternWriter<W>,
        o: MatchOutcome<PatternWriter<W>, (), IoError>,
    ) -> bool {
        match o {
            MatchOutcome::Matched(m2, v) => bytes_written(
                fixnum_bytes(true, (self.0).0 as int, 6),
                writer_written(m),
                writer_spare(m),
                writer_ready(m),
                m2,
            ),
            MatchOutcome::Failed(m2, e) => write_failed(
                fixnum_bytes(true, (self.0).0 as int, 6),
                writer_written(m),
                writer_spare(m),
                writer_ready(m),
                m2,
                e,
            ),
        }
    }

    open spec fn pre(self) -> bool {
        true
    }

    fn async_match(self, matcher: PatternWriter<W>) -> (f: Self::Future) {
        let bytes = encode_be_signed((self.0).0 as i64, 6);
        WriteFixnum::start(matcher, bytes)
    }
}

/// Writes a 48-bit signed integer in little-endian order.
impl<W: AsyncWrite> AsyncMatch<PatternWriter<W>> for LE<I48> {
    type Future = WriteFixnum<W>;

    open spec fn admits(
        self,
        m: PatternWriter<W>,
        o: MatchOutcome<PatternWriter<W>, (), IoError>,
    ) -> bool {
        match o {
            MatchOutcome::Matched(m2, v) => bytes_written(
                fixnum_bytes(false, (self.0).0 as int, 6),
                writer_written(m),
                writer_spare(m),
                writer_ready(m),
                m2,
            ),
            MatchOutcome::Failed(m2, e) => write_failed(
                fixnum_bytes(false, (self.0).0 as int, 6),
                writer_written(m),
                writer_spare(m),
                writer_ready(m),
                m2,
                e,
            ),
        }
    }

    open spec fn pre(self) -> bool {
        true
    }

    fn async_match(self, matcher: PatternWriter<W>) -> (f: Self::Future) {
        let bytes = encode_le_signed((self.0).0 as i64, 6);
        WriteFixnum::start(matcher, bytes)
    }
}

/// Writes a 56-bit unsigned integer in big-endian order.
impl<W: AsyncWrite> AsyncMatch<PatternWriter<W>> for BE<U56> {
    type Future = WriteFixnum<W>;

    open spec fn admits(
        self,
        m: PatternWriter<W>,
        o: MatchOutcome<PatternWriter<W>, (), IoError>,
    ) -> bool {
        match o {
            MatchOutcome::Matched(m2, v) => bytes_written(
                fixnum_bytes(true, (self.0).0 as int, 7),
                writer_written(m),
                writer_spare(m),
                writer_ready(m),
                m2,
            ),
            MatchOutcome::Failed(m2, e) => write_failed(
                fixnum_bytes(true, (self.0).0 as int, 7),
                writer_written(m),
                writer_spare(m),
                writer_ready(m),
                m2,
                e,
            ),
        }
    }

    open spec fn pre(self) -> bool {
        true
    }

    fn async_match(self, matcher: PatternWriter<W>) -> (f: Self::Future) {
        let bytes = encode_be((self.0).0 as u64, 7);
        WriteFixnum::start(matcher, bytes)
    }
}

/// Writes a 56-bit unsigned integer in little-endian order.
impl<W: AsyncWrite> AsyncMatch<PatternWriter<W>> for LE<U56> {
    type Future = WriteFixnum<W>;

    open spec fn admits(
        self,
        m: PatternWriter<W>,
        o: MatchOutcome<PatternWriter<W>, (), IoError>,
    ) -> bool {
        match o {
            MatchOutcome::Matched(m2, v) => bytes_written(
                fixnum_bytes(false, (self.0).0 as int, 7),
                writer_written(m),
                writer_spare(m),
                writer_ready(m),
                m2,
            ),
            MatchOutcome::Failed(m2, e) => write_failed(
                fixnum_bytes(false, (self.0).0 as int, 7),
                writer_written(m),
                writer_spare(m),
                writer_ready(m),
                m2,
                e,
            ),
        }
    }

    open spec fn pre(self) -> bool {
        true
    }

    fn async_match(self, matcher: PatternWriter<W>) -> (f: Self::Future) {
        let bytes = encode_le((self.0).0 as u64, 7);
        WriteFixnum::start(matcher, bytes)
    }
}

/// Writes a 56-bit signed integer in big-endian order.
impl<W: AsyncWrite> AsyncMatch<PatternWriter<W>> for BE<I56> {
    type Future = WriteFixnum<W>;

    open spec fn admits(
        self,
        m: PatternWriter<W>,
        o: MatchOutcome<PatternWriter<W>, (), IoError>,
    ) -> bool {
        match o {
            MatchOutcome::Matched(m2, v) => bytes_written(
                fixnum_bytes(true, (self.0).0 as int, 7),
                writer_written(m),
                writer_spare(m),
                writer_ready(m),
                m2,
            ),
            MatchOutcome::Failed(m2, e) => write_failed(
                fixnum_bytes(true, (self.0).0 as int, 7),
                writer_written(m),
                writer_spare(m),
                writer_ready(m),
                m2,
                e,
            ),
        }
    }

    open spec fn pre(self) -> bool {
        true
    }

    fn async_match(self, matcher: PatternWriter<W>) -> (f: Self::Future) {
        let bytes = encode_be_signed((self.0).0 as i64, 7);
        WriteFixnum::start(matcher, bytes)
    }
}

/// Writes a 56-bit signed integer in little-endian order.
impl<W: AsyncWrite> AsyncMatch<PatternWriter<W>> for LE<I56> {
    type Future = WriteFixnum<W>;

    open spec fn admits(
        self,
        m: PatternWriter<W>,
        o: MatchOutcome<PatternWriter<W>, (), IoError>,
    ) -> bool {
        match o {
            MatchOutcome::Matched(m2, v) => bytes_written(
                fixnum_bytes(false, (self.0).0 as int, 7),
                writer_written(m),
                writer_spare(m),
                writer_ready(m),
                m2,
            ),
            MatchOutcome::Failed(m2, e) => write_failed(
                fixnum_bytes(false, (self.0).0 as int, 7),
                writer_written(m),
                writer_spare(m),
                writer_ready(m),
                m2,
                e,
            ),
        }
    }

    open spec fn pre(self) -> bool {
        true
    }

    fn async_match(self, matcher: PatternWriter<W>) -> (f: Self::Future) {
        let bytes = encode_le_signed((self.0).0 as i64, 7);
        WriteFixnum::start(matcher, bytes)
    }
}


/// The views of a wrapped writer are the writer's own.
pub broadcast proof fn lemma_spec_writer<W: AsyncWrite>(inner: W)
    ensures
        writer_written(#[trigger] spec_writer(inner)) == inner.written(),
        writer_spare(spec_writer(inner)) == inner.spare(),
        writer_ready(spec_writer(inner)) == inner.always_ready(),
{
}

/// The `WriteInto` trait allows for writing a value of this pattern into a
/// sink asynchronously: it binds the pattern to a fresh writing matcher.
pub trait WriteInto<W: AsyncWrite>: AsyncMatch<PatternWriter<W>> {
    /// Creates a future instance to write a value of the pattern into
    /// `writer`.
    fn write_into(self, writer: W) -> (f: Self::Future)
        requires
            self.pre(),
        ensures
            !f.done(),
            f.wf(),
            f.ready() == writer.always_ready(),
            forall|o: MatchOutcome<PatternWriter<W>, Self::Value, IoError>|
                f.admits(o) ==> self.admits(spec_writer(writer), o),
    ;
}

impl<W: AsyncWrite, P: AsyncMatch<PatternWriter<W>>> WriteInto<W> for P {
    fn write_into(self, writer: W) -> (f: Self::Future) {
        self.async_match(PatternWriter::new(writer))
    }
}


/// A future which will send the active region of a window, handing the
/// window back with its cursor untouched.
pub struct WriteWin<W: AsyncWrite> {
    inner: WriteAll<PatternWriter<W>>,
    start0: usize,
}

impl<W: AsyncWrite> MatchFuture<PatternWriter<W>> for WriteWin<W> {
    type Value = Window;

    closed spec fn done(&self) -> bool {
        self.inner.done()
    }

    closed spec fn wf(&self) -> bool {
        &&& self.inner.wf()
        &&& self.inner.orig_window().wf()
        &&& self.inner.orig_window().spec_start() == self.start0
    }

    closed spec fn ready(&self) -> bool {
        self.inner.ready()
    }

    closed spec fn admits(&self, o: MatchOutcome<PatternWriter<W>, Window, IoError>) -> bool {
        let w0 = self.inner.orig_window();
        match o {
            MatchOutcome::Matched(m2, w) => {
                &&& bytes_written(
                    w0.active(),
                    self.inner.orig_written(),
                    self.inner.orig_spare(),
                    self.ready(),
                    m2,
                )
                &&& w.wf()
                &&& w.buf() == w0.buf()
                &&& w.spec_start() == w0.spec_start()
                &&& w.spec_end() == w0.spec_end()
            },
            MatchOutcome::Failed(m2, e) => write_failed(
                w0.active(),
                self.inner.orig_written(),
                self.inner.orig_spare(),
                self.ready(),
                m2,
                e,
            ),
        }
    }

    fn poll(&mut self) -> (r: Result<
        Async<(PatternWriter<W>, Window)>,
        AsyncError<PatternWriter<W>, IoError>,
    >) {
        let ghost w0 = self.inner.orig_window();
        let ghost bs = w0.active();
        let ghost written0 = self.inner.orig_written();
        let ghost spare0 = self.inner.orig_spare();
        let start0 = self.start0;
        match self.inner.poll() {
            Ok(Async::Ready((m2, b2))) => {
                let w = b2.set_start(start0);
                Ok(Async::Ready((m2, w)))
            },
            Ok(Async::NotReady) => Ok(Async::NotReady),
            Err(e) => {
                let (st, err) = e.unwrap();
                let (m2, _w) = st;
                proof {
                    if err.kind == ErrorKind::Other {
                        let k = choose|k: int|
                            {
                                &&& 0 <= k <= w0.spec_len()
                                &&& k <= spare0
                                &&& writer_written(m2) == written0 + w0.active().take(k)
                                &&& writer_spare(m2) == spare0 - k
                                &&& _w.wf()
                                &&& _w.buf() == w0.buf()
                                &&& _w.spec_start() == w0.spec_start() + k
                                &&& _w.spec_end() == w0.spec_end()
                            };
                        assert(writer_written(m2) == written0 + bs.take(k));
                    }
                }
                Err(AsyncError::new(m2, err))
            },
        }
    }
}

/// A window pattern writes exactly its active region, handing the window
/// back with the same cursor.
impl<W: AsyncWrite> AsyncMatch<PatternWriter<W>> for Window {
    type Future = WriteWin<W>;

    open spec fn admits(
        self,
        m: PatternWriter<W>,
        o: MatchOutcome<PatternWriter<W>, Window, IoError>,
    ) -> bool {
        match o {
            MatchOutcome::Matched(m2, w) => {
                &&& bytes_written(
                    self.active(),
                    writer_written(m),
                    writer_spare(m),
                    writer_ready(m),
                    m2,
                )
                &&& w.wf()
                &&& w.buf() == self.buf()
                &&& w.spec_start() == self.spec_start()
                &&& w.spec_end() == self.spec_end()
            },
            MatchOutcome::Failed(m2, e) => write_failed(
                self.active(),
                writer_written(m),
                writer_spare(m),
                writer_ready(m),
                m2,
                e,
            ),
        }
    }

    open spec fn pre(self) -> bool {
        self.wf()
    }

    fn async_match(self, matcher: PatternWriter<W>) -> (f: Self::Future) {
        let start0 = self.start();
        WriteWin { inner: write_all(matcher, self), start0 }
    }
}


/// A future which will send a buffer to the extent a single transfer
/// allows: one write attempt, reporting how many bytes the sink accepted.
pub struct WritePartialBuf<W: AsyncWrite> {
    inner: WriteBytes<PatternWriter<W>>,
}

impl<W: AsyncWrite> MatchFuture<PatternWriter<W>> for WritePartialBuf<W> {
    type Value = (Vec<u8>, usize);

    closed spec fn done(&self) -> bool {
        self.inner.done()
    }

    closed spec fn wf(&self) -> bool {
        &&& self.inner.wf()
        &&& !self.inner.done() ==> self.inner.window().wf() && self.inner.window().spec_start()
            == 0 && self.inner.window().spec_end() == self.inner.window().buf().len()
    }

    closed spec fn ready(&self) -> bool {
        writer_ready(self.inner.sink())
    }

    closed spec fn admits(
        &self,
        o: MatchOutcome<PatternWriter<W>, (Vec<u8>, usize), IoError>,
    ) -> bool {
        let b0 = self.inner.window().buf();
        let written0 = writer_written(self.inner.sink());
        let spare0 = writer_spare(self.inner.sink());
        match o {
            MatchOutcome::Matched(m2, v) => partial_write_matched(
                b0,
                written0,
                spare0,
                self.ready(),
                m2,
                v.0@,
                v.1 as int,
            ),
            MatchOutcome::Failed(m2, e) => {
                &&& e.kind == ErrorKind::Other
                &&& writer_written(m2) == written0
                &&& writer_spare(m2) == spare0
                &&& writer_ready(m2) == self.ready()
            },
        }
    }

    fn poll(&mut self) -> (r: Result<
        Async<(PatternWriter<W>, (Vec<u8>, usize))>,
        AsyncError<PatternWriter<W>, IoError>,
    >) {
        let ghost b0 = self.inner.window().buf();
        match self.inner.poll() {
            Ok(Async::Ready((m2, b2, n))) => {
                let v = b2.into_inner();
                proof {
                    assert(v@ =~= b0);
                    assert(b0.subrange(0, b0.len() as int) =~= b0);
                }
                Ok(Async::Ready((m2, (v, n))))
            },
            Ok(Async::NotReady) => Ok(Async::NotReady),
            Err(e) => {
                let (st, err) = e.unwrap();
                let (m2, _w) = st;
                Err(AsyncError::new(m2, err))
            },
        }
    }
}

/// A single partial write: the sink accepted the first `n` bytes of the
/// buffer, `n` being the sink's choice — positive unless nothing was
/// offered or the sink is full; the buffer comes back unchanged.
pub open spec fn partial_write_matched<W: AsyncWrite>(
    b0: Seq<u8>,
    written0: Seq<u8>,
    spare0: nat,
    ready0: bool,
    m2: PatternWriter<W>,
    v: Seq<u8>,
    n: int,
) -> bool {
    &&& 0 <= n <= b0.len()
    &&& n <= spare0
    &&& (n == 0 <==> (b0.len() == 0 || spare0 == 0))
    &&& v == b0
    &&& writer_written(m2) == written0 + b0.take(n)
    &&& writer_spare(m2) == spare0 - n
    &&& writer_ready(m2) == ready0
}

/// A partially writable buffer performs exactly one transfer attempt.
impl<W: AsyncWrite> AsyncMatch<PatternWriter<W>> for PartialBuf {
    type Future = WritePartialBuf<W>;

    open spec fn admits(
        self,
        m: PatternWriter<W>,
        o: MatchOutcome<PatternWriter<W>, (Vec<u8>, usize), IoError>,
    ) -> bool {
        match o {
            MatchOutcome::Matched(m2, v) => partial_write_matched(
                self.0@,
                writer_written(m),
                writer_spare(m),
                writer_ready(m),
                m2,
                v.0@,
                v.1 as int,
            ),
            MatchOutcome::Failed(m2, e) => {
                &&& e.kind == ErrorKind::Other
                &&& writer_written(m2) == writer_written(m)
                &&& writer_spare(m2) == writer_spare(m)
                &&& writer_ready(m2) == writer_ready(m)
            },
        }
    }

    open spec fn pre(self) -> bool {
        true
    }

    fn async_match(self, matcher: PatternWriter<W>) -> (f: Self::Future) {
        WritePartialBuf { inner: crate::io::async_write::write(matcher, Window::new(self.0)) }
    }
}


/// A future which will write a string's UTF-8 bytes into `W`, handing the
/// string back.
pub struct WriteString<W: AsyncWrite> {
    inner: WriteAll<PatternWriter<W>>,
    value: Option<String>,
}

impl<W: AsyncWrite> MatchFuture<PatternWriter<W>> for WriteString<W> {
    type Value = String;

    closed spec fn done(&self) -> bool {
        self.inner.done()
    }

    closed spec fn wf(&self) -> bool {
        &&& self.inner.wf()
        &&& self.inner.orig_window().wf()
        &&& self.value is Some
        &&& self.inner.orig_window().active() == encode_utf8(self.value->Some_0@)
    }

    closed spec fn ready(&self) -> bool {
        self.inner.ready()
    }

    closed spec fn admits(&self, o: MatchOutcome<PatternWriter<W>, String, IoError>) -> bool {
        match o {
            MatchOutcome::Matched(m2, v) => {
                &&& bytes_written(
                    encode_utf8(self.value->Some_0@),
                    self.inner.orig_written(),
                    self.inner.orig_spare(),
                    self.ready(),
                    m2,
                )
                &&& v@ == self.value->Some_0@
            },
            MatchOutcome::Failed(m2, e) => write_failed(
                encode_utf8(self.value->Some_0@),
                self.inner.orig_written(),
                self.inner.orig_spare(),
                self.ready(),
                m2,
                e,
            ),
        }
    }

    fn poll(&mut self) -> (r: Result<
        Async<(PatternWriter<W>, String)>,
        AsyncError<PatternWriter<W>, IoError>,
    >) {
        let ghost bs = self.inner.orig_window().active();
        let ghost w0 = self.inner.orig_window();
        let ghost written0 = self.inner.orig_written();
        let ghost spare0 = self.inner.orig_spare();
        match self.inner.poll() {
            Ok(Async::Ready((m2, _b2))) => {
                match self.value.take() {
                    Some(v) => Ok(Async::Ready((m2, v))),
                    None => vstd::pervasive::unreached(),
                }
            },
            Ok(Async::NotReady) => Ok(Async::NotReady),
            Err(e) => {
                let (st, err) = e.unwrap();
                let (m2, _w) = st;
                proof {
                    if err.kind == ErrorKind::Other {
                        let k = choose|k: int|
                            {
                                &&& 0 <= k <= w0.spec_len()
                                &&& k <= spare0
                                &&& writer_written(m2) == written0 + w0.active().take(k)
                                &&& writer_spare(m2) == spare0 - k
                                &&& _w.wf()
                                &&& _w.buf() == w0.buf()
                                &&& _w.spec_start() == w0.spec_start() + k
                                &&& _w.spec_end() == w0.spec_end()
                            };
                        assert(writer_written(m2) == written0 + bs.take(k));
                    }
                }
                Err(AsyncError::new(m2, err))
            },
        }
    }
}

impl Pattern for String {
    type Value = String;
}

/// Writing a string sends its UTF-8 bytes and hands the string back.
impl<W: AsyncWrite> AsyncMatch<PatternWriter<W>> for String {
    type Future = WriteString<W>;

    open spec fn admits(
        self,
        m: PatternWriter<W>,
        o: MatchOutcome<PatternWriter<W>, String, IoError>,
    ) -> bool {
        match o {
            MatchOutcome::Matched(m2, v) => {
                &&& bytes_written(
                    encode_utf8(self@),
                    writer_written(m),
                    writer_spare(m),
                    writer_ready(m),
                    m2,
                )
                &&& v@ == self@
            },
            MatchOutcome::Failed(m2, e) => write_failed(
                encode_utf8(self@),
                writer_written(m),
                writer_spare(m),
                writer_ready(m),
                m2,
                e,
            ),
        }
    }

    open spec fn pre(self) -> bool {
        true
    }

    fn async_match(self, matcher: PatternWriter<W>) -> (f: Self::Future) {
        let ghost gs = self@;
        let bytes = self.as_str().as_bytes_vec();
        let w = Window::new(bytes);
        proof {
            assert(w.active() =~= encode_utf8(gs));
        }
        WriteString { inner: write_all(matcher, w), value: Some(self) }
    }
}

} // verus!
