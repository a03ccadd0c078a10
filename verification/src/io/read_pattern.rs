//! Matching read patterns against a stream.
//!
//! [`PatternReader`] wraps a byte source and is the matcher for all reading
//! patterns; the futures here are the leaf operations that actually move
//! bytes.  Their contracts pin each outcome to the stream's remainder: what
//! value is produced, how many bytes are consumed, and on which streams the
//! operation fails instead.

use vstd::prelude::*;
use vstd::string::StrSliceExecFns;
use vstd::utf8::{decode_utf8, encode_utf8, valid_utf8};
use crate::codec::{be_value, decode_be, decode_le, le_value, lemma_be_value_bound, lemma_le_value_bound, signed, Fixnum};
use crate::error::{AsyncError, ErrorKind, IoError};
use crate::io::async_read::{read, read_exact, read_non_empty, ReadBytes, ReadExact, ReadNonEmpty};
use crate::io::{Async, AsyncIoError, AsyncRead};
use crate::matcher::async_match::AsyncMatch;
use crate::matcher::{Matcher, MatchFuture, MatchOutcome, Phase};
use crate::pattern::combinators::PartialBuf;
use crate::pattern::{read::All, read::Eos, read::LengthPrefixedBytes, read::Line, read::Until, read::Utf8, Buf, Pattern, TryAsLength, Window};

verus! {

/// A matcher to read patterns from the inner reader `R`.
pub struct PatternReader<R: AsyncRead> {
    inner: R,
}

/// The matcher that `PatternReader::new` wraps around a reader.
pub closed spec fn spec_reader<R: AsyncRead>(inner: R) -> PatternReader<R> {
    PatternReader { inner }
}

impl<R: AsyncRead> PatternReader<R> {
    /// Makes a new `PatternReader` instance.
    pub fn new(inner: R) -> (r: Self)
        ensures
            r == spec_reader(inner),
            r.rem() == inner.rem(),
            <Self as AsyncRead>::always_ready(&r) == inner.always_ready(),
    {
        PatternReader { inner }
    }

    /// Unwraps this `PatternReader`, returning the underlying reader.
    pub fn into_inner(self) -> (r: R)
        ensures
            r.rem() == self.rem(),
            r.always_ready() == <Self as AsyncRead>::always_ready(&self),
    {
        self.inner
    }
}

impl<R: AsyncRead> AsyncRead for PatternReader<R> {
    closed spec fn rem(&self) -> Seq<u8> {
        self.inner.rem()
    }

    closed spec fn always_ready(&self) -> bool {
        self.inner.always_ready()
    }

    fn read(&mut self, buf: &mut Window) -> (r: Result<Async<usize>, IoError>) {
        self.inner.read(buf)
    }
}

impl<R: AsyncRead> Matcher for PatternReader<R> {
    type Error = IoError;

    closed spec fn always_ready(&self) -> bool {
        self.inner.always_ready()
    }
}

/// The stream's remainder as a reading matcher sees it.
pub open spec fn reader_rem<R: AsyncRead>(m: PatternReader<R>) -> Seq<u8> {
    <PatternReader<R> as AsyncRead>::rem(&m)
}

/// Whether a reading matcher's stream never reports "would block".
pub open spec fn reader_ready<R: AsyncRead>(m: PatternReader<R>) -> bool {
    <PatternReader<R> as Matcher>::always_ready(&m)
}

/// A successful buffer fill: the first `n` bytes of the remainder `rem0`
/// were consumed and are the value's contents.
pub open spec fn buf_matched<R: AsyncRead>(
    n: int,
    rem0: Seq<u8>,
    ready0: bool,
    m2: PatternReader<R>,
    v: Seq<u8>,
) -> bool {
    &&& n <= rem0.len()
    &&& v == rem0.take(n)
    &&& reader_rem(m2) == rem0.skip(n)
    &&& reader_ready(m2) == ready0
}

/// A failed read: either the stream ended while `n` bytes were still
/// required (and was drained), or the stream itself reported an error after
/// some prefix had been consumed.
pub open spec fn read_failed<R: AsyncRead>(
    n: int,
    rem0: Seq<u8>,
    ready0: bool,
    m2: PatternReader<R>,
    e: IoError,
) -> bool {
    &&& reader_ready(m2) == ready0
    &&& (e.kind == ErrorKind::UnexpectedEos || e.kind == ErrorKind::Other)
    &&& (e.kind == ErrorKind::UnexpectedEos ==> rem0.len() < n && reader_rem(m2).len() == 0)
    &&& (e.kind == ErrorKind::Other ==> exists|k: int|
        0 <= k <= rem0.len() && reader_rem(m2) == #[trigger] rem0.skip(k))
}

/// A future which will read bytes from `R` to fill a buffer completely.
///
/// This future is created by matching buffer-like patterns such as `Buf` or
/// `Vec<u8>`.
pub struct ReadBuf<R: AsyncRead> {
    inner: ReadExact<PatternReader<R>>,
}

impl<R: AsyncRead> ReadBuf<R> {
    /// Builds the operation: the whole buffer `buf` will be filled.
    pub(crate) fn start(m: PatternReader<R>, buf: Vec<u8>) -> (f: Self)
        ensures
            !f.done(),
            f.wf(),
            f.ready() == reader_ready(m),
            f.rem0() == reader_rem(m),
            f.count() == buf@.len(),
    {
        ReadBuf { inner: read_exact(m, Window::new(buf)) }
    }

    /// The stream remainder at bind time.
    pub closed spec fn rem0(&self) -> Seq<u8> {
        self.inner.orig_rem()
    }

    /// How many bytes the operation requires.
    pub closed spec fn count(&self) -> int {
        self.inner.orig_window().spec_len()
    }
}

impl<R: AsyncRead> MatchFuture<PatternReader<R>> for ReadBuf<R> {
    type Value = Vec<u8>;

    closed spec fn done(&self) -> bool {
        self.inner.done()
    }

    closed spec fn wf(&self) -> bool {
        &&& self.inner.wf()
        &&& self.inner.orig_window().wf()
        &&& self.inner.orig_window().spec_start() == 0
        &&& self.inner.orig_window().spec_end() == self.inner.orig_window().buf().len()
    }

    closed spec fn ready(&self) -> bool {
        self.inner.ready()
    }

    closed spec fn admits(&self, o: MatchOutcome<PatternReader<R>, Vec<u8>, IoError>) -> bool {
        match o {
            MatchOutcome::Matched(m2, v) => buf_matched(
                self.count(),
                self.rem0(),
                self.ready(),
                m2,
                v@,
            ),
            MatchOutcome::Failed(m2, e) => read_failed(
                self.count(),
                self.rem0(),
                self.ready(),
                m2,
                e,
            ),
        }
    }

    fn poll(&mut self) -> (r: Result<
        Async<(PatternReader<R>, Vec<u8>)>,
        AsyncError<PatternReader<R>, IoError>,
    >) {
        let ghost n = self.count();
        let ghost s0 = self.rem0();
        let ghost w0 = self.inner.orig_window();
        match self.inner.poll() {
            Ok(Async::Ready((m2, w2))) => {
                let v = w2.into_inner();
                proof {
                    assert(v@ =~= s0.take(n));
                }
                Ok(Async::Ready((m2, v)))
            },
            Ok(Async::NotReady) => Ok(Async::NotReady),
            Err(e) => {
                let (st, err) = e.unwrap();
                let (m2, _w) = st;
                proof {
                    if err.kind == ErrorKind::Other {
                        let k = choose|k: int|
                            {
                                &&& 0 <= k <= s0.len()
                                &&& k <= w0.spec_len()
                                &&& _w.wf()
                                &&& _w.spec_start() == w0.spec_start() + k
                                &&& _w.spec_end() == w0.spec_end()
                                &&& _w.buf() == crate::pattern::splice(
                                    w0.buf(),
                                    w0.spec_start(),
                                    s0.take(k),
                                )
                                &&& reader_rem(m2) == s0.skip(k)
                            };
                        assert(reader_rem(m2) == s0.skip(k));
                    }
                }
                Err(AsyncError::new(m2, err))
            },
        }
    }
}

impl Pattern for Buf {
    type Value = Vec<u8>;
}

impl<R: AsyncRead> AsyncMatch<PatternReader<R>> for Buf {
    type Future = ReadBuf<R>;

    open spec fn admits(
        self,
        m: PatternReader<R>,
        o: MatchOutcome<PatternReader<R>, Vec<u8>, IoError>,
    ) -> bool {
        match o {
            MatchOutcome::Matched(m2, v) => buf_matched(
                self.0@.len() as int,
                reader_rem(m),
                reader_ready(m),
                m2,
                v@,
            ),
            MatchOutcome::Failed(m2, e) => read_failed(
                self.0@.len() as int,
                reader_rem(m),
                reader_ready(m),
                m2,
                e,
            ),
        }
    }

    open spec fn pre(self) -> bool {
        true
    }

    fn async_match(self, matcher: PatternReader<R>) -> (f: Self::Future) {
        ReadBuf::start(matcher, self.0)
    }
}

impl Pattern for Vec<u8> {
    type Value = Vec<u8>;
}

/// A byte vector pattern reads exactly its own length of bytes, replacing
/// its contents.
impl<R: AsyncRead> AsyncMatch<PatternReader<R>> for Vec<u8> {
    type Future = ReadBuf<R>;

    open spec fn admits(
        self,
        m: PatternReader<R>,
        o: MatchOutcome<PatternReader<R>, Vec<u8>, IoError>,
    ) -> bool {
        match o {
            MatchOutcome::Matched(m2, v) => buf_matched(
                self@.len() as int,
                reader_rem(m),
                reader_ready(m),
                m2,
                v@,
            ),
            MatchOutcome::Failed(m2, e) => read_failed(
                self@.len() as int,
                reader_rem(m),
                reader_ready(m),
                m2,
                e,
            ),
        }
    }

    open spec fn pre(self) -> bool {
        true
    }

    fn async_match(self, matcher: PatternReader<R>) -> (f: Self::Future) {
        ReadBuf::start(matcher, self)
    }
}

/// A vector of `n` zero bytes.
fn zero_vec(n: usize) -> (r: Vec<u8>)
    ensures
        r@.len() == n,
{
    let mut r: Vec<u8> = Vec::new();
    let mut i: usize = 0;
    while i < n
        invariant
            i <= n,
            r@.len() == i,
        decreases n - i,
    {
        r.push(0);
        i = i + 1;
    }
    r
}

/// The raw unsigned word denoted by a byte sequence in the given order.
pub open spec fn raw_value(be: bool, s: Seq<u8>) -> int {
    if be {
        be_value(s)
    } else {
        le_value(s)
    }
}

/// The value a fixed-width numeric pattern assigns to a byte sequence: the
/// raw word, read as two's complement where the pattern is signed.
pub open spec fn fixnum_value(be: bool, sgn: bool, s: Seq<u8>) -> int {
    if sgn {
        signed(raw_value(be, s), s.len())
    } else {
        raw_value(be, s)
    }
}

/// A successful fixed-width numeric read: the first `n` remainder bytes were
/// consumed and denote the value `v`.
pub open spec fn fixnum_matched<R: AsyncRead>(
    n: int,
    be: bool,
    sgn: bool,
    rem0: Seq<u8>,
    ready0: bool,
    m2: PatternReader<R>,
    v: int,
) -> bool {
    &&& n <= rem0.len()
    &&& v == fixnum_value(be, sgn, rem0.take(n))
    &&& reader_rem(m2) == rem0.skip(n)
    &&& reader_ready(m2) == ready0
}

/// A future which will read a fixed-width number from `R`: exactly the
/// width's byte count, converted in the requested byte order.
pub struct ReadFixnum<R: AsyncRead, T: Fixnum> {
    inner: ReadExact<PatternReader<R>>,
    be: bool,
    value: core::marker::PhantomData<T>,
}

impl<R: AsyncRead, T: Fixnum> ReadFixnum<R, T> {
    /// Builds the operation: `nbytes` bytes will be read and converted.
    pub(crate) fn start(m: PatternReader<R>, nbytes: usize, be: bool) -> (f: Self)
        requires
            T::fits(nbytes as nat),
            nbytes <= 8,
        ensures
            !f.done(),
            f.wf(),
            f.ready() == reader_ready(m),
            f.rem0() == reader_rem(m),
            f.count() == nbytes,
            f.big_endian() == be,
    {
        ReadFixnum {
            inner: read_exact(m, Window::new(zero_vec(nbytes))),
            be,
            value: core::marker::PhantomData,
        }
    }

    /// The stream remainder at bind time.
    pub closed spec fn rem0(&self) -> Seq<u8> {
        self.inner.orig_rem()
    }

    /// How many bytes the operation requires.
    pub closed spec fn count(&self) -> int {
        self.inner.orig_window().spec_len()
    }

    /// Whether the value is converted in big-endian order.
    pub closed spec fn big_endian(&self) -> bool {
        self.be
    }
}

impl<R: AsyncRead, T: Fixnum> MatchFuture<PatternReader<R>> for ReadFixnum<R, T> {
    type Value = T;

    closed spec fn done(&self) -> bool {
        self.inner.done()
    }

    closed spec fn wf(&self) -> bool {
        &&& self.inner.wf()
        &&& self.inner.orig_window().wf()
        &&& self.inner.orig_window().spec_start() == 0
        &&& self.inner.orig_window().spec_end() == self.inner.orig_window().buf().len()
        &&& T::fits(self.count() as nat)
        &&& self.count() <= 8
    }

    closed spec fn ready(&self) -> bool {
        self.inner.ready()
    }

    closed spec fn admits(&self, o: MatchOutcome<PatternReader<R>, T, IoError>) -> bool {
        match o {
            MatchOutcome::Matched(m2, v) => {
                &&& self.count() <= self.rem0().len()
                &&& v.as_int() == T::decode_spec(
                    raw_value(self.big_endian(), self.rem0().take(self.count())),
                    self.count() as nat,
                )
                &&& reader_rem(m2) == self.rem0().skip(self.count())
                &&& reader_ready(m2) == self.ready()
            },
            MatchOutcome::Failed(m2, e) => read_failed(
                self.count(),
                self.rem0(),
                self.ready(),
                m2,
                e,
            ),
        }
    }

    fn poll(&mut self) -> (r: Result<
        Async<(PatternReader<R>, T)>,
        AsyncError<PatternReader<R>, IoError>,
    >) {
        let ghost n = self.count();
        let ghost s0 = self.rem0();
        let ghost w0 = self.inner.orig_window();
        match self.inner.poll() {
            Ok(Async::Ready((m2, w2))) => {
                let bytes = w2.into_inner();
                proof {
                    assert(bytes@ =~= s0.take(n));
                    lemma_be_value_bound(bytes@);
                    lemma_le_value_bound(bytes@);
                }
                let raw = if self.be {
                    decode_be(&bytes)
                } else {
                    decode_le(&bytes)
                };
                let v = T::from_raw(raw, bytes.len());
                Ok(Async::Ready((m2, v)))
            },
            Ok(Async::NotReady) => Ok(Async::NotReady),
            Err(e) => {
                let (st, err) = e.unwrap();
                let (m2, _w) = st;
                proof {
                    if err.kind == ErrorKind::Other {
                        let k = choose|k: int|
                            {
                                &&& 0 <= k <= s0.len()
                                &&& k <= w0.spec_len()
                                &&& _w.wf()
                                &&& _w.spec_start() == w0.spec_start() + k
                                &&& _w.spec_end() == w0.spec_end()
                                &&& _w.buf() == crate::pattern::splice(
                                    w0.buf(),
                                    w0.spec_start(),
                                    s0.take(k),
                                )
                                &&& reader_rem(m2) == s0.skip(k)
                            };
                        assert(reader_rem(m2) == s0.skip(k));
                    }
                }
                Err(AsyncError::new(m2, err))
            },
        }
    }
}

/// What a fixed-width numeric read operation admits, over its public views:
/// a success consumes exactly `count` bytes and converts them; a failure is
/// a failed read of `count` bytes.
pub broadcast proof fn lemma_read_fixnum_admits<R: AsyncRead, T: Fixnum>(
    f: ReadFixnum<R, T>,
    o: MatchOutcome<PatternReader<R>, T, IoError>,
)
    ensures
        #[trigger] f.admits(o) <==> match o {
            MatchOutcome::Matched(m2, v) => {
                &&& f.count() <= f.rem0().len()
                &&& v.as_int() == T::decode_spec(
                    raw_value(f.big_endian(), f.rem0().take(f.count())),
                    f.count() as nat,
                )
                &&& reader_rem(m2) == f.rem0().skip(f.count())
                &&& reader_ready(m2) == f.ready()
            },
            MatchOutcome::Failed(m2, e) => read_failed(f.count(), f.rem0(), f.ready(), m2, e),
        },
{
}

/// The views of a wrapped reader are the reader's own.
pub broadcast proof fn lemma_spec_reader<R: AsyncRead>(inner: R)
    ensures
        reader_rem(#[trigger] spec_reader(inner)) == inner.rem(),
        reader_ready(spec_reader(inner)) == inner.always_ready(),
{
}

/// The `ReadFrom` trait allows for reading a value of the pattern from a
/// source asynchronously: it binds the pattern to a fresh reading matcher.
pub trait ReadFrom<R: AsyncRead>: AsyncMatch<PatternReader<R>> {
    /// Creates a future instance to read a value of the pattern from
    /// `reader`.
    fn read_from(self, reader: R) -> (f: Self::Future)
        requires
            self.pre(),
        ensures
            !f.done(),
            f.wf(),
            f.ready() == reader.always_ready(),
            forall|o: MatchOutcome<PatternReader<R>, Self::Value, IoError>|
                f.admits(o) ==> self.admits(spec_reader(reader), o),
    ;
}

impl<R: AsyncRead, P: AsyncMatch<PatternReader<R>>> ReadFrom<R> for P {
    fn read_from(self, reader: R) -> (f: Self::Future) {
        self.async_match(PatternReader::new(reader))
    }
}

/// A future which will determine whether the stream has reached its end:
/// it yields `Ok(())` on an exhausted stream, and `Err(first_byte)` — the
/// byte consumed — where data remains.
pub struct ReadEos<R: AsyncRead> {
    inner: ReadBytes<PatternReader<R>>,
}

impl<R: AsyncRead> ReadEos<R> {
    /// The stream remainder at bind time.
    pub closed spec fn rem0(&self) -> Seq<u8> {
        reader_rem(self.inner.stream())
    }
}

impl<R: AsyncRead> MatchFuture<PatternReader<R>> for ReadEos<R> {
    type Value = Result<(), u8>;

    closed spec fn done(&self) -> bool {
        self.inner.done()
    }

    closed spec fn wf(&self) -> bool {
        &&& self.inner.wf()
        &&& !self.inner.done() ==> self.inner.window().wf() && self.inner.window().spec_len() == 1
    }

    closed spec fn ready(&self) -> bool {
        reader_ready(self.inner.stream())
    }

    closed spec fn admits(
        &self,
        o: MatchOutcome<PatternReader<R>, Result<(), u8>, IoError>,
    ) -> bool {
        match o {
            MatchOutcome::Matched(m2, v) => eos_matched(self.rem0(), self.ready(), m2, v),
            MatchOutcome::Failed(m2, e) => {
                &&& e.kind == ErrorKind::Other
                &&& reader_rem(m2) == self.rem0()
                &&& reader_ready(m2) == self.ready()
            },
        }
    }

    fn poll(&mut self) -> (r: Result<
        Async<(PatternReader<R>, Result<(), u8>)>,
        AsyncError<PatternReader<R>, IoError>,
    >) {
        let ghost s0 = self.rem0();
        match self.inner.poll() {
            Ok(Async::Ready((m2, w2, n))) => {
                if n == 0 {
                    proof {
                        assert(s0.skip(0) =~= s0);
                    }
                    Ok(Async::Ready((m2, Ok(()))))
                } else {
                    let b = w2.active_at(0);
                    proof {
                        assert(w2.active() =~= s0.take(1));
                    }
                    Ok(Async::Ready((m2, Err(b))))
                }
            },
            Ok(Async::NotReady) => Ok(Async::NotReady),
            Err(e) => {
                let (st, err) = e.unwrap();
                let (m2, _w) = st;
                Err(AsyncError::new(m2, err))
            },
        }
    }
}

/// What the end-of-stream check yields: `Ok(())` and nothing consumed on an
/// exhausted stream; otherwise `Err` carrying the stream's next byte, which
/// is consumed only by being returned.
pub open spec fn eos_matched<R: AsyncRead>(
    rem0: Seq<u8>,
    ready0: bool,
    m2: PatternReader<R>,
    v: Result<(), u8>,
) -> bool {
    &&& reader_ready(m2) == ready0
    &&& match v {
        Ok(u) => rem0.len() == 0 && reader_rem(m2) == rem0,
        Err(b) => rem0.len() > 0 && b == rem0[0] && reader_rem(m2) == rem0.skip(1),
    }
}

/// The end-of-stream pattern: it succeeds on every stream whose underlying
/// source does not itself fail, telling the two cases apart exactly.
impl<R: AsyncRead> AsyncMatch<PatternReader<R>> for Eos {
    type Future = ReadEos<R>;

    open spec fn admits(
        self,
        m: PatternReader<R>,
        o: MatchOutcome<PatternReader<R>, Result<(), u8>, IoError>,
    ) -> bool {
        match o {
            MatchOutcome::Matched(m2, v) => eos_matched(reader_rem(m), reader_ready(m), m2, v),
            MatchOutcome::Failed(m2, e) => {
                &&& e.kind == ErrorKind::Other
                &&& reader_rem(m2) == reader_rem(m)
                &&& reader_ready(m2) == reader_ready(m)
            },
        }
    }

    open spec fn pre(self) -> bool {
        true
    }

    fn async_match(self, matcher: PatternReader<R>) -> (f: Self::Future) {
        ReadEos { inner: read(matcher, Window::new(zero_vec(1))) }
    }
}

/// The predicate `f`, called on bytes `got` with end-of-stream flag `eos`,
/// may return `res`.
pub open spec fn pred_said<F, T>(
    f: F,
    got: Seq<u8>,
    eos: bool,
    res: Result<Option<T>, IoError>,
) -> bool where F: Fn(&Vec<u8>, bool) -> Result<Option<T>, IoError> {
    exists|gv: Vec<u8>| gv@ == got && #[trigger] call_ensures(f, (&gv, eos), res)
}

/// The outcomes of a scan which has read `got` so far from a stream with
/// remainder `rem`, calling predicate `f` after every transfer.
///
/// The stream decides how many bytes each read attempt yields, so the
/// predicate's call points — and with them the outcome — range over every
/// possible chunking; the relation quantifies over them.
pub open spec fn until_admits<R: AsyncRead, F, T>(
    f: F,
    minb: int,
    maxb: int,
    got: Seq<u8>,
    rem: Seq<u8>,
    ready0: bool,
    o: MatchOutcome<PatternReader<R>, (Vec<u8>, T), IoError>,
) -> bool where F: Fn(&Vec<u8>, bool) -> Result<Option<T>, IoError>
    decreases rem.len(), 2nat,
{
    if got.len() >= maxb {
        match o {
            MatchOutcome::Failed(m2, e) => {
                &&& e.kind == ErrorKind::BufferLimitReached
                &&& reader_rem(m2) == rem
                &&& reader_ready(m2) == ready0
            },
            MatchOutcome::Matched(_, _) => false,
        }
    } else if rem.len() == 0 {
        match o {
            MatchOutcome::Matched(m2, val) => {
                &&& reader_rem(m2) == rem
                &&& reader_ready(m2) == ready0
                &&& val.0@ == got
                &&& pred_said(f, got, true, Result::<Option<T>, IoError>::Ok(Some(val.1)))
            },
            MatchOutcome::Failed(m2, e) => {
                &&& reader_rem(m2) == rem
                &&& reader_ready(m2) == ready0
                &&& {
                    ||| (e.kind == ErrorKind::UnexpectedEos && pred_said(
                        f,
                        got,
                        true,
                        Result::<Option<T>, IoError>::Ok(None),
                    ))
                    ||| pred_said(f, got, true, Result::<Option<T>, IoError>::Err(e))
                    ||| e.kind == ErrorKind::Other
                }
            },
        }
    } else {
        ||| until_progress(f, minb, maxb, got, rem, ready0, o)
        ||| match o {
            MatchOutcome::Failed(m2, e) => until_stream_failed(rem, ready0, m2, e),
            MatchOutcome::Matched(_, _) => false,
        }
    }
}

/// Some positive number of bytes arrived, within the per-attempt chunk, the
/// buffer limit, and the stream's remainder, and the scan went on from
/// there.
pub open spec fn until_progress<R: AsyncRead, F, T>(
    f: F,
    minb: int,
    maxb: int,
    got: Seq<u8>,
    rem: Seq<u8>,
    ready0: bool,
    o: MatchOutcome<PatternReader<R>, (Vec<u8>, T), IoError>,
) -> bool where F: Fn(&Vec<u8>, bool) -> Result<Option<T>, IoError>
    decreases rem.len(), 1nat,
{
    exists|n: int|
        {
            &&& #[trigger] some_chunk(n)
            &&& 1 <= n <= minb
            &&& n <= maxb - got.len()
            &&& n <= rem.len()
            &&& until_step(f, minb, maxb, got, rem, ready0, o, n)
        }
}

/// A marker for a chunk size a stream might have yielded; used as the
/// instantiation hook of [`until_progress`].
pub open spec fn some_chunk(n: int) -> bool {
    true
}

/// The underlying stream itself failed during a scan, after consuming some
/// prefix of its remainder.
pub open spec fn until_stream_failed<R: AsyncRead>(
    rem: Seq<u8>,
    ready0: bool,
    m2: PatternReader<R>,
    e: IoError,
) -> bool {
    &&& e.kind == ErrorKind::Other
    &&& reader_ready(m2) == ready0
    &&& exists|k: int| 0 <= k <= rem.len() && reader_rem(m2) == #[trigger] rem.skip(k)
}

/// One scan step: `n` further bytes arrived and the predicate was consulted
/// on the grown buffer.
pub open spec fn until_step<R: AsyncRead, F, T>(
    f: F,
    minb: int,
    maxb: int,
    got: Seq<u8>,
    rem: Seq<u8>,
    ready0: bool,
    o: MatchOutcome<PatternReader<R>, (Vec<u8>, T), IoError>,
    n: int,
) -> bool where F: Fn(&Vec<u8>, bool) -> Result<Option<T>, IoError>
    decreases rem.len(), 0nat,
{
    let got2 = got + rem.take(n);
    ||| match o {
        MatchOutcome::Matched(m2, val) => {
            &&& reader_rem(m2) == rem.skip(n)
            &&& reader_ready(m2) == ready0
            &&& val.0@ == got2
            &&& pred_said(f, got2, false, Result::<Option<T>, IoError>::Ok(Some(val.1)))
        },
        MatchOutcome::Failed(_, _) => false,
    }
    ||| match o {
        MatchOutcome::Failed(m2, e) => {
            &&& reader_rem(m2) == rem.skip(n)
            &&& reader_ready(m2) == ready0
            &&& pred_said(f, got2, false, Result::<Option<T>, IoError>::Err(e))
        },
        MatchOutcome::Matched(_, _) => false,
    }
    ||| (pred_said(f, got2, false, Result::<Option<T>, IoError>::Ok(None)) && (1 <= n && n
        <= rem.len() ==> until_admits(
        f,
        minb,
        maxb,
        got2,
        rem.skip(n),
        ready0,
        o,
    )))
}

/// A future which continues reading until the predicate is satisfied.
pub struct ReadUntil<R: AsyncRead, F, T> {
    state: Phase<(ReadBytes<PatternReader<R>>, Vec<u8>, usize, usize, F), ()>,
    value: core::marker::PhantomData<T>,
}

impl<R: AsyncRead, F, T> MatchFuture<PatternReader<R>> for ReadUntil<R, F, T> where
    F: Fn(&Vec<u8>, bool) -> Result<Option<T>, IoError>,
 {
    type Value = (Vec<u8>, T);

    closed spec fn done(&self) -> bool {
        !(self.state is A)
    }

    closed spec fn wf(&self) -> bool {
        match self.state {
            Phase::A((fut, got, minb, maxb, f)) => {
                &&& !fut.done()
                &&& fut.wf()
                &&& got@.len() < maxb
                &&& minb >= 1
                &&& fut.window().spec_len() == spec_min(
                    minb as int,
                    maxb - got@.len(),
                )
                &&& fut.window().spec_start() == 0
                &&& fut.window().spec_end() == fut.window().buf().len()
                &&& forall|gv: Vec<u8>, b: bool| call_requires(f, (&gv, b))
            },
            _ => true,
        }
    }

    closed spec fn ready(&self) -> bool {
        match self.state {
            Phase::A((fut, got, minb, maxb, f)) => reader_ready(fut.stream()),
            _ => true,
        }
    }

    closed spec fn admits(&self, o: MatchOutcome<PatternReader<R>, (Vec<u8>, T), IoError>) -> bool {
        match self.state {
            Phase::A((fut, got, minb, maxb, f)) => until_admits(
                f,
                minb as int,
                maxb as int,
                got@,
                reader_rem(fut.stream()),
                reader_ready(fut.stream()),
                o,
            ),
            _ => false,
        }
    }

    fn poll(&mut self) -> (r: Result<
        Async<(PatternReader<R>, (Vec<u8>, T))>,
        AsyncError<PatternReader<R>, IoError>,
    >) {
        match self.state.take() {
            Phase::A((fut0, got0, minb, maxb, f)) => {
                let mut fut = fut0;
                let mut got = got0;
                loop
                    invariant
                        !fut.done(),
                        fut.wf(),
                        got@.len() < maxb,
                        minb >= 1,
                        fut.window().spec_len() == spec_min(minb as int, maxb - got@.len()),
                        fut.window().spec_start() == 0,
                        fut.window().spec_end() == fut.window().buf().len(),
                        forall|gv: Vec<u8>, b: bool| call_requires(f, (&gv, b)),
                        reader_ready(fut.stream()) == old(self).ready(),
                        forall|o: MatchOutcome<PatternReader<R>, (Vec<u8>, T), IoError>|
                            until_admits(
                                f,
                                minb as int,
                                maxb as int,
                                got@,
                                reader_rem(fut.stream()),
                                reader_ready(fut.stream()),
                                o,
                            ) ==> old(self).admits(o),
                        self.done(),
                    decreases reader_rem(fut.stream()).len(),
                {
                    let ghost gfut = fut;
                    let ghost grem = reader_rem(fut.stream());
                    let ghost ggot = got@;
                    let ghost gready = reader_ready(fut.stream());
                    match fut.poll() {
                        Ok(Async::NotReady) => {
                            self.state = Phase::A((fut, got, minb, maxb, f));
                            return Ok(Async::NotReady);
                        },
                        Err(e) => {
                            let (st, err) = e.unwrap();
                            let (m2, _w) = st;
                            proof {
                                assert(grem.skip(0) =~= grem);
                                assert(reader_rem(m2) == grem.skip(0));
                                assert(until_admits::<R, F, T>(
                                    f,
                                    minb as int,
                                    maxb as int,
                                    ggot,
                                    grem,
                                    gready,
                                    MatchOutcome::Failed(m2, err),
                                ));
                            }
                            return Err(AsyncError::new(m2, err));
                        },
                        Ok(Async::Ready((m2, w2, n))) => {
                            if n == 0 {
                                proof {
                                    assert(grem.skip(0) =~= grem);
                                    assert(grem.len() == 0);
                                }
                                let res = f(&got, true);
                                let ghost ggv = got;
                                match res {
                                    Ok(Some(v)) => {
                                        proof {
                                            assert(ggv@ == ggot && call_ensures(
                                                f,
                                                (&ggv, true),
                                                Result::<Option<T>, IoError>::Ok(Some(v)),
                                            ));
                                            assert(pred_said(
                                                f,
                                                ggot,
                                                true,
                                                Result::<Option<T>, IoError>::Ok(Some(v)),
                                            ));
                                            assert(until_admits::<R, F, T>(
                                                f,
                                                minb as int,
                                                maxb as int,
                                                ggot,
                                                grem,
                                                gready,
                                                MatchOutcome::Matched(m2, (ggv, v)),
                                            ));
                                        }
                                        return Ok(Async::Ready((m2, (got, v))));
                                    },
                                    Ok(None) => {
                                        proof {
                                            assert(ggv@ == ggot && call_ensures(
                                                f,
                                                (&ggv, true),
                                                Result::<Option<T>, IoError>::Ok(None),
                                            ));
                                            assert(pred_said(
                                                f,
                                                ggot,
                                                true,
                                                Result::<Option<T>, IoError>::Ok(None),
                                            ));
                                            assert(until_admits::<R, F, T>(
                                                f,
                                                minb as int,
                                                maxb as int,
                                                ggot,
                                                grem,
                                                gready,
                                                MatchOutcome::Failed(
                                                    m2,
                                                    IoError { kind: ErrorKind::UnexpectedEos },
                                                ),
                                            ));
                                        }
                                        let e = IoError::new(ErrorKind::UnexpectedEos);
                                        return Err(AsyncError::new(m2, e));
                                    },
                                    Err(pe) => {
                                        proof {
                                            assert(ggv@ == ggot && call_ensures(
                                                f,
                                                (&ggv, true),
                                                Result::<Option<T>, IoError>::Err(pe),
                                            ));
                                            assert(pred_said(
                                                f,
                                                ggot,
                                                true,
                                                Result::<Option<T>, IoError>::Err(pe),
                                            ));
                                            assert(until_admits::<R, F, T>(
                                                f,
                                                minb as int,
                                                maxb as int,
                                                ggot,
                                                grem,
                                                gready,
                                                MatchOutcome::Failed(m2, pe),
                                            ));
                                        }
                                        return Err(AsyncError::new(m2, pe));
                                    },
                                }
                            } else {
                                let bytes = w2.into_inner();
                                let mut i: usize = 0;
                                proof {
                                    assert(ggot + grem.take(0) =~= ggot);
                                    assert(bytes@.take(n as int) =~= grem.take(n as int));
                                }
                                while i < n
                                    invariant
                                        i <= n,
                                        n <= bytes@.len(),
                                        n <= grem.len(),
                                        bytes@.take(n as int) =~= grem.take(n as int),
                                        got@ == ggot + grem.take(i as int),
                                    decreases n - i,
                                {
                                    proof {
                                        assert((ggot + grem.take(i as int)).push(grem[i as int])
                                            =~= ggot + grem.take(i + 1));
                                        assert(bytes@[i as int] == bytes@.take(n as int)[i as int]);
                                    }
                                    got.push(bytes[i]);
                                    i = i + 1;
                                }
                                let ghost ggot2 = got@;
                                let res = f(&got, false);
                                let ghost ggv = got;
                                match res {
                                    Ok(Some(v)) => {
                                        proof {
                                            assert(until_step(
                                                f,
                                                minb as int,
                                                maxb as int,
                                                ggot,
                                                grem,
                                                gready,
                                                MatchOutcome::<
                                                    PatternReader<R>,
                                                    (Vec<u8>, T),
                                                    IoError,
                                                >::Matched(m2, (ggv, v)),
                                                n as int,
                                            ));
                                            assert(some_chunk(n as int) && 1 <= n as int
                                                <= minb as int && n as int <= maxb as int
                                                - ggot.len() && n as int <= grem.len());
                                            assert(until_progress::<R, F, T>(
                                                f,
                                                minb as int,
                                                maxb as int,
                                                ggot,
                                                grem,
                                                gready,
                                                MatchOutcome::Matched(m2, (ggv, v)),
                                            ));
                                            assert(until_admits::<R, F, T>(
                                                f,
                                                minb as int,
                                                maxb as int,
                                                ggot,
                                                grem,
                                                gready,
                                                MatchOutcome::Matched(m2, (ggv, v)),
                                            ));
                                        }
                                        return Ok(Async::Ready((m2, (got, v))));
                                    },
                                    Err(pe) => {
                                        proof {
                                            assert(until_step(
                                                f,
                                                minb as int,
                                                maxb as int,
                                                ggot,
                                                grem,
                                                gready,
                                                MatchOutcome::<
                                                    PatternReader<R>,
                                                    (Vec<u8>, T),
                                                    IoError,
                                                >::Failed(m2, pe),
                                                n as int,
                                            ));
                                            assert(some_chunk(n as int) && 1 <= n as int
                                                <= minb as int && n as int <= maxb as int
                                                - ggot.len() && n as int <= grem.len());
                                            assert(until_progress::<R, F, T>(
                                                f,
                                                minb as int,
                                                maxb as int,
                                                ggot,
                                                grem,
                                                gready,
                                                MatchOutcome::Failed(m2, pe),
                                            ));
                                            assert(until_admits::<R, F, T>(
                                                f,
                                                minb as int,
                                                maxb as int,
                                                ggot,
                                                grem,
                                                gready,
                                                MatchOutcome::Failed(m2, pe),
                                            ));
                                        }
                                        return Err(AsyncError::new(m2, pe));
                                    },
                                    Ok(None) => {
                                        if got.len() >= maxb {
                                            proof {
                                                assert(until_step(
                                                    f,
                                                    minb as int,
                                                    maxb as int,
                                                    ggot,
                                                    grem,
                                                    gready,
                                                    MatchOutcome::<
                                                        PatternReader<R>,
                                                        (Vec<u8>, T),
                                                        IoError,
                                                    >::Failed(
                                                        m2,
                                                        IoError {
                                                            kind: ErrorKind::BufferLimitReached,
                                                        },
                                                    ),
                                                    n as int,
                                                ));
                                                assert(some_chunk(n as int) && 1 <= n as int
                                                    <= minb as int && n as int <= maxb as int
                                                    - ggot.len() && n as int <= grem.len());
                                                assert(until_progress::<R, F, T>(
                                                    f,
                                                    minb as int,
                                                    maxb as int,
                                                    ggot,
                                                    grem,
                                                    gready,
                                                    MatchOutcome::Failed(
                                                        m2,
                                                        IoError {
                                                            kind: ErrorKind::BufferLimitReached,
                                                        },
                                                    ),
                                                ));
                                                assert(until_admits::<R, F, T>(
                                                    f,
                                                    minb as int,
                                                    maxb as int,
                                                    ggot,
                                                    grem,
                                                    gready,
                                                    MatchOutcome::Failed(
                                                        m2,
                                                        IoError {
                                                            kind: ErrorKind::BufferLimitReached,
                                                        },
                                                    ),
                                                ));
                                            }
                                            let e = IoError::new(ErrorKind::BufferLimitReached);
                                            return Err(AsyncError::new(m2, e));
                                        } else {
                                            let room = maxb - got.len();
                                            let chunk = if minb < room {
                                                minb
                                            } else {
                                                room
                                            };
                                            fut = read(m2, Window::new(zero_vec(chunk)));
                                            proof {
                                                assert forall|
                                                    o: MatchOutcome<
                                                        PatternReader<R>,
                                                        (Vec<u8>, T),
                                                        IoError,
                                                    >,
                                                |
                                                    until_admits(
                                                        f,
                                                        minb as int,
                                                        maxb as int,
                                                        got@,
                                                        reader_rem(fut.stream()),
                                                        reader_ready(fut.stream()),
                                                        o,
                                                    ) implies old(self).admits(o) by {
                                                    assert(until_step(
                                                        f,
                                                        minb as int,
                                                        maxb as int,
                                                        ggot,
                                                        grem,
                                                        gready,
                                                        o,
                                                        n as int,
                                                    ));
                                                    assert(some_chunk(n as int) && 1 <= n as int
                                                        <= minb as int && n as int
                                                        <= maxb as int - ggot.len() && n as int
                                                        <= grem.len());
                                                    assert(until_progress::<R, F, T>(
                                                        f,
                                                        minb as int,
                                                        maxb as int,
                                                        ggot,
                                                        grem,
                                                        gready,
                                                        o,
                                                    ));
                                                    assert(until_admits(
                                                        f,
                                                        minb as int,
                                                        maxb as int,
                                                        ggot,
                                                        grem,
                                                        gready,
                                                        o,
                                                    ));
                                                }
                                            }
                                        }
                                    },
                                }
                            }
                        },
                    }
                }
            },
            _ => vstd::pervasive::unreached(),
        }
    }
}

/// The smaller of two values.
pub open spec fn spec_min(a: int, b: int) -> int {
    if a < b {
        a
    } else {
        b
    }
}

/// The scan pattern: its outcomes are [`until_admits`] over the stream's
/// remainder.
impl<R: AsyncRead, F, T> AsyncMatch<PatternReader<R>> for Until<F, T> where
    F: Fn(&Vec<u8>, bool) -> Result<Option<T>, IoError>,
 {
    type Future = ReadUntil<R, F, T>;

    open spec fn admits(
        self,
        m: PatternReader<R>,
        o: MatchOutcome<PatternReader<R>, (Vec<u8>, T), IoError>,
    ) -> bool {
        until_admits(
            self.spec_pred(),
            self.spec_min_buffer_size() as int,
            self.spec_max_buffer_size() as int,
            Seq::<u8>::empty(),
            reader_rem(m),
            reader_ready(m),
            o,
        )
    }

    open spec fn pre(self) -> bool {
        &&& self.spec_min_buffer_size() >= 1
        &&& self.spec_max_buffer_size() >= 1
        &&& forall|gv: Vec<u8>, b: bool| call_requires(self.spec_pred(), (&gv, b))
    }

    fn async_match(self, matcher: PatternReader<R>) -> (f: Self::Future) {
        let (pred, minb, maxb) = self.unwrap();
        let chunk = if minb < maxb {
            minb
        } else {
            maxb
        };
        let fut = read(matcher, Window::new(zero_vec(chunk)));
        ReadUntil {
            state: Phase::A((fut, Vec::new(), minb, maxb, pred)),
            value: core::marker::PhantomData,
        }
    }
}

/// A length-prefixed read resolved: the wrapped pattern decoded the length,
/// which fits a machine word, and exactly that many bytes followed.
pub open spec fn lpb_matched<R: AsyncRead, P: AsyncMatch<PatternReader<R>>>(
    p: P,
    m: PatternReader<R>,
    m2: PatternReader<R>,
    v: Seq<u8>,
) -> bool where P::Value: TryAsLength {
    exists|m1: PatternReader<R>, v0: P::Value|
        {
            &&& #[trigger] p.admits(m, MatchOutcome::Matched(m1, v0))
            &&& 0 <= v0.as_len() <= usize::MAX
            &&& buf_matched(v0.as_len(), reader_rem(m1), reader_ready(m1), m2, v)
        }
}

/// A length-prefixed read failed: in the length pattern, in the body read,
/// or because the decoded length does not fit a machine word.
pub open spec fn lpb_failed<R: AsyncRead, P: AsyncMatch<PatternReader<R>>>(
    p: P,
    m: PatternReader<R>,
    m2: PatternReader<R>,
    e: IoError,
) -> bool where P::Value: TryAsLength {
    ||| p.admits(m, MatchOutcome::Failed(m2, e))
    ||| exists|m1: PatternReader<R>, v0: P::Value|
        {
            &&& #[trigger] p.admits(m, MatchOutcome::Matched(m1, v0))
            &&& if 0 <= v0.as_len() <= usize::MAX {
                read_failed(v0.as_len(), reader_rem(m1), reader_ready(m1), m2, e)
            } else {
                &&& e.kind == ErrorKind::InvalidData
                &&& reader_rem(m2) == reader_rem(m1)
                &&& reader_ready(m2) == reader_ready(m1)
            }
        }
}

/// A future which will read a length-prefixed byte string: first the length
/// through the wrapped pattern, then exactly that many bytes.
pub struct ReadLengthPrefixedBytes<R: AsyncRead, P: AsyncMatch<PatternReader<R>>> {
    state: Phase<P::Future, ReadBuf<R>>,
}

impl<R: AsyncRead, P: AsyncMatch<PatternReader<R>>> MatchFuture<
    PatternReader<R>,
> for ReadLengthPrefixedBytes<R, P> where P::Value: TryAsLength {
    type Value = Vec<u8>;

    closed spec fn done(&self) -> bool {
        self.state is Done
    }

    closed spec fn wf(&self) -> bool {
        match self.state {
            Phase::A(f0) => !f0.done() && f0.wf(),
            Phase::B(f1) => !f1.done() && f1.wf(),
            Phase::Done => true,
        }
    }

    closed spec fn ready(&self) -> bool {
        match self.state {
            Phase::A(f0) => f0.ready(),
            Phase::B(f1) => f1.ready(),
            Phase::Done => true,
        }
    }

    closed spec fn admits(&self, o: MatchOutcome<PatternReader<R>, Vec<u8>, IoError>) -> bool {
        match self.state {
            Phase::A(f0) => match o {
                MatchOutcome::Matched(m2, v) => exists|
                    m1: PatternReader<R>,
                    v0: P::Value,
                |
                    {
                        &&& #[trigger] f0.admits(MatchOutcome::Matched(m1, v0))
                        &&& 0 <= v0.as_len() <= usize::MAX
                        &&& buf_matched(v0.as_len(), reader_rem(m1), reader_ready(m1), m2, v@)
                    },
                MatchOutcome::Failed(m2, e) => {
                    ||| f0.admits(MatchOutcome::Failed(m2, e))
                    ||| exists|m1: PatternReader<R>, v0: P::Value|
                        {
                            &&& #[trigger] f0.admits(MatchOutcome::Matched(m1, v0))
                            &&& if 0 <= v0.as_len() <= usize::MAX {
                                read_failed(
                                    v0.as_len(),
                                    reader_rem(m1),
                                    reader_ready(m1),
                                    m2,
                                    e,
                                )
                            } else {
                                &&& e.kind == ErrorKind::InvalidData
                                &&& reader_rem(m2) == reader_rem(m1)
                                &&& reader_ready(m2) == reader_ready(m1)
                            }
                        }
                },
            },
            Phase::B(f1) => f1.admits(o),
            Phase::Done => false,
        }
    }

    fn poll(&mut self) -> (r: Result<
        Async<(PatternReader<R>, Vec<u8>)>,
        AsyncError<PatternReader<R>, IoError>,
    >) {
        match self.state.take() {
            Phase::A(mut f0) => {
                let ghost gf0 = f0;
                match f0.poll() {
                    Ok(Async::Ready((m1, v0))) => {
                        let ghost gm1 = m1;
                        let ghost gv0 = v0;
                        match v0.to_length() {
                            Some(len) => {
                                let mut f1 = ReadBuf::start(m1, zero_vec(len));
                                match f1.poll() {
                                    Ok(Async::Ready((m2, v))) => {
                                        proof {
                                            assert(gf0.admits(MatchOutcome::Matched(gm1, gv0))
                                                && 0 <= gv0.as_len() <= usize::MAX
                                                && buf_matched(
                                                gv0.as_len(),
                                                reader_rem(gm1),
                                                reader_ready(gm1),
                                                m2,
                                                v@,
                                            ));
                                        }
                                        Ok(Async::Ready((m2, v)))
                                    },
                                    Ok(Async::NotReady) => {
                                        proof {
                                            assert forall|
                                                o: MatchOutcome<
                                                    PatternReader<R>,
                                                    Vec<u8>,
                                                    IoError,
                                                >,
                                            | f1.admits(o) implies old(self).admits(o) by {
                                                match o {
                                                    MatchOutcome::Matched(m2, v) => {
                                                        assert(gf0.admits(
                                                            MatchOutcome::Matched(gm1, gv0),
                                                        ) && 0 <= gv0.as_len() <= usize::MAX
                                                            && buf_matched(
                                                            gv0.as_len(),
                                                            reader_rem(gm1),
                                                            reader_ready(gm1),
                                                            m2,
                                                            v@,
                                                        ));
                                                    },
                                                    MatchOutcome::Failed(m2, e) => {
                                                        assert(gf0.admits(
                                                            MatchOutcome::Matched(gm1, gv0),
                                                        ) && read_failed(
                                                            gv0.as_len(),
                                                            reader_rem(gm1),
                                                            reader_ready(gm1),
                                                            m2,
                                                            e,
                                                        ));
                                                    },
                                                }
                                            }
                                        }
                                        self.state = Phase::B(f1);
                                        Ok(Async::NotReady)
                                    },
                                    Err(e) => {
                                        proof {
                                            assert(gf0.admits(MatchOutcome::Matched(gm1, gv0))
                                                && read_failed(
                                                gv0.as_len(),
                                                reader_rem(gm1),
                                                reader_ready(gm1),
                                                e.spec_state(),
                                                e.spec_error(),
                                            ));
                                        }
                                        Err(e)
                                    },
                                }
                            },
                            None => {
                                proof {
                                    assert(gf0.admits(MatchOutcome::Matched(gm1, gv0)));
                                }
                                let e = IoError::new(ErrorKind::InvalidData);
                                Err(AsyncError::new(m1, e))
                            },
                        }
                    },
                    Ok(Async::NotReady) => {
                        self.state = Phase::A(f0);
                        Ok(Async::NotReady)
                    },
                    Err(e) => Err(e),
                }
            },
            Phase::B(mut f1) => {
                match f1.poll() {
                    Ok(Async::Ready((m2, v))) => Ok(Async::Ready((m2, v))),
                    Ok(Async::NotReady) => {
                        self.state = Phase::B(f1);
                        Ok(Async::NotReady)
                    },
                    Err(e) => Err(e),
                }
            },
            Phase::Done => vstd::pervasive::unreached(),
        }
    }
}

impl<P: Pattern> Pattern for LengthPrefixedBytes<P> {
    type Value = Vec<u8>;
}

/// A length-prefixed byte string: the wrapped pattern decodes the length,
/// then exactly that many bytes are read.
impl<R: AsyncRead, P: AsyncMatch<PatternReader<R>>> AsyncMatch<
    PatternReader<R>,
> for LengthPrefixedBytes<P> where P::Value: TryAsLength {
    type Future = ReadLengthPrefixedBytes<R, P>;

    open spec fn admits(
        self,
        m: PatternReader<R>,
        o: MatchOutcome<PatternReader<R>, Vec<u8>, IoError>,
    ) -> bool {
        match o {
            MatchOutcome::Matched(m2, v) => lpb_matched(self.0, m, m2, v@),
            MatchOutcome::Failed(m2, e) => lpb_failed(self.0, m, m2, e),
        }
    }

    open spec fn pre(self) -> bool {
        self.0.pre()
    }

    fn async_match(self, matcher: PatternReader<R>) -> (f: Self::Future) {
        let ghost gself = self;
        let sub = self.0.async_match(matcher);
        let ghost gsub = sub;
        let r = ReadLengthPrefixedBytes::<R, P> { state: Phase::A(sub) };
        proof {
            assert forall|o: MatchOutcome<PatternReader<R>, Vec<u8>, IoError>| r.admits(o)
                implies gself.admits(matcher, o) by {
                match o {
                    MatchOutcome::Matched(m2, v) => {
                        let (m1, v0) = choose|m1: PatternReader<R>, v0: P::Value|
                            {
                                &&& #[trigger] gsub.admits(MatchOutcome::Matched(m1, v0))
                                &&& 0 <= v0.as_len() <= usize::MAX
                                &&& buf_matched(
                                    v0.as_len(),
                                    reader_rem(m1),
                                    reader_ready(m1),
                                    m2,
                                    v@,
                                )
                            };
                        assert(gself.0.admits(matcher, MatchOutcome::Matched(m1, v0))
                            && 0 <= v0.as_len() <= usize::MAX && buf_matched(
                            v0.as_len(),
                            reader_rem(m1),
                            reader_ready(m1),
                            m2,
                            v@,
                        ));
                    },
                    MatchOutcome::Failed(m2, e) => {
                        if !gsub.admits(MatchOutcome::Failed(m2, e)) {
                            let (m1, v0) = choose|m1: PatternReader<R>, v0: P::Value|
                                {
                                    &&& #[trigger] gsub.admits(MatchOutcome::Matched(m1, v0))
                                    &&& if 0 <= v0.as_len() <= usize::MAX {
                                        read_failed(
                                            v0.as_len(),
                                            reader_rem(m1),
                                            reader_ready(m1),
                                            m2,
                                            e,
                                        )
                                    } else {
                                        &&& e.kind == ErrorKind::InvalidData
                                        &&& reader_rem(m2) == reader_rem(m1)
                                        &&& reader_ready(m2) == reader_ready(m1)
                                    }
                                };
                            assert(gself.0.admits(matcher, MatchOutcome::Matched(m1, v0)));
                        }
                    },
                }
            }
        }
        r
    }
}

/// How many bytes the next line occupies: up to and including the first
/// newline byte, or the whole sequence if it holds none.
pub open spec fn line_len(s: Seq<u8>) -> int
    decreases s.len(),
{
    if s.len() == 0 {
        0
    } else if s[0] == 10 {
        1
    } else {
        1 + line_len(s.skip(1))
    }
}

/// A newline-free prefix splits off the front of `line_len`.
pub proof fn lemma_line_len_prefix(s: Seq<u8>, k: int)
    requires
        0 <= k <= s.len(),
        forall|j: int| 0 <= j < k ==> s[j] != 10,
    ensures
        line_len(s) == k + line_len(s.skip(k)),
    decreases k,
{
    if k > 0 {
        lemma_line_len_prefix(s, k - 1);
        assert(s.skip(k - 1).len() > 0);
        assert(s.skip(k - 1)[0] == s[k - 1]);
        assert(s.skip(k - 1).skip(1) =~= s.skip(k));
    } else {
        assert(s.skip(0) =~= s);
    }
}

/// `line_len` stays within the sequence.
pub proof fn lemma_line_len_bound(s: Seq<u8>)
    ensures
        0 <= line_len(s) <= s.len(),
    decreases s.len(),
{
    if s.len() > 0 && s[0] != 10 {
        lemma_line_len_bound(s.skip(1));
    }
}

/// What reading one line yields: the bytes up to and including the first
/// newline, or everything left when the stream ends without one; an empty
/// stream is an unexpected end.
pub open spec fn line_matched<R: AsyncRead>(
    rem0: Seq<u8>,
    ready0: bool,
    m2: PatternReader<R>,
    v: Seq<u8>,
) -> bool {
    &&& rem0.len() > 0
    &&& v == rem0.take(line_len(rem0))
    &&& reader_rem(m2) == rem0.skip(line_len(rem0))
    &&& reader_ready(m2) == ready0
}

/// A future which will read a line: bytes arrive one at a time until a
/// newline is seen or the stream ends.
pub struct ReadLine<R: AsyncRead> {
    state: Phase<(ReadBytes<PatternReader<R>>, Vec<u8>), ()>,
}

impl<R: AsyncRead> MatchFuture<PatternReader<R>> for ReadLine<R> {
    type Value = Vec<u8>;

    closed spec fn done(&self) -> bool {
        !(self.state is A)
    }

    closed spec fn wf(&self) -> bool {
        match self.state {
            Phase::A((fut, got)) => {
                &&& !fut.done()
                &&& fut.wf()
                &&& fut.window().spec_len() == 1
                &&& fut.window().spec_start() == 0
                &&& fut.window().spec_end() == fut.window().buf().len()
            },
            _ => true,
        }
    }

    closed spec fn ready(&self) -> bool {
        match self.state {
            Phase::A((fut, got)) => reader_ready(fut.stream()),
            _ => true,
        }
    }

    closed spec fn admits(&self, o: MatchOutcome<PatternReader<R>, Vec<u8>, IoError>) -> bool {
        match self.state {
            Phase::A((fut, got)) => {
                let rem = reader_rem(fut.stream());
                let ready0 = reader_ready(fut.stream());
                match o {
                    MatchOutcome::Matched(m2, v) => {
                        &&& got@ + rem.take(line_len(rem)) == v@
                        &&& (got@.len() == 0 ==> rem.len() > 0)
                        &&& reader_rem(m2) == rem.skip(line_len(rem))
                        &&& reader_ready(m2) == ready0
                    },
                    MatchOutcome::Failed(m2, e) => {
                        ||| (e.kind == ErrorKind::UnexpectedEos && got@.len() == 0 && rem.len()
                            == 0 && reader_rem(m2) == rem && reader_ready(m2) == ready0)
                        ||| until_stream_failed(rem, ready0, m2, e)
                    },
                }
            },
            _ => false,
        }
    }

    fn poll(&mut self) -> (r: Result<
        Async<(PatternReader<R>, Vec<u8>)>,
        AsyncError<PatternReader<R>, IoError>,
    >) {
        match self.state.take() {
            Phase::A((fut0, got0)) => {
                let mut fut = fut0;
                let mut got = got0;
                loop
                    invariant
                        !fut.done(),
                        fut.wf(),
                        fut.window().spec_len() == 1,
                        fut.window().spec_start() == 0,
                        fut.window().spec_end() == fut.window().buf().len(),
                        reader_ready(fut.stream()) == old(self).ready(),
                        forall|o: MatchOutcome<PatternReader<R>, Vec<u8>, IoError>|
                            line_state_admits(
                                got@,
                                reader_rem(fut.stream()),
                                reader_ready(fut.stream()),
                                o,
                            ) ==> old(self).admits(o),
                        self.done(),
                    decreases reader_rem(fut.stream()).len(),
                {
                    let ghost ggot = got@;
                    let ghost grem = reader_rem(fut.stream());
                    let ghost gready = reader_ready(fut.stream());
                    match fut.poll() {
                        Ok(Async::NotReady) => {
                            self.state = Phase::A((fut, got));
                            return Ok(Async::NotReady);
                        },
                        Err(e) => {
                            let (st, err) = e.unwrap();
                            let (m2, _w) = st;
                            proof {
                                assert(grem.skip(0) =~= grem);
                                assert(reader_rem(m2) == grem.skip(0));
                                assert(line_state_admits(
                                    ggot,
                                    grem,
                                    gready,
                                    MatchOutcome::Failed(m2, err),
                                ));
                            }
                            return Err(AsyncError::new(m2, err));
                        },
                        Ok(Async::Ready((m2, w2, n))) => {
                            if n == 0 {
                                proof {
                                    assert(grem.len() == 0);
                                    assert(grem.take(line_len(grem)) =~= grem);
                                    assert(grem.skip(line_len(grem)) =~= grem);
                                }
                                if got.len() == 0 {
                                    let e = IoError::new(ErrorKind::UnexpectedEos);
                                    proof {
                                        assert(line_state_admits(
                                            ggot,
                                            grem,
                                            gready,
                                            MatchOutcome::Failed(
                                                m2,
                                                IoError { kind: ErrorKind::UnexpectedEos },
                                            ),
                                        ));
                                    }
                                    return Err(AsyncError::new(m2, e));
                                } else {
                                    let ghost ggv = got;
                                    proof {
                                        assert(ggot + grem.take(line_len(grem)) =~= ggot);
                                        assert(line_state_admits(
                                            ggot,
                                            grem,
                                            gready,
                                            MatchOutcome::Matched(m2, ggv),
                                        ));
                                    }
                                    return Ok(Async::Ready((m2, got)));
                                }
                            } else {
                                let b = w2.active_at(0);
                                proof {
                                    assert(w2.active() =~= grem.take(1));
                                    assert(b == grem[0]);
                                }
                                got.push(b);
                                if b == 10 {
                                    let ghost ggv = got;
                                    proof {
                                        assert(line_len(grem) == 1);
                                        assert(ggot + grem.take(1) =~= ggv@);
                                        assert(line_state_admits(
                                            ggot,
                                            grem,
                                            gready,
                                            MatchOutcome::Matched(m2, ggv),
                                        ));
                                    }
                                    return Ok(Async::Ready((m2, got)));
                                } else {
                                    fut = read(m2, Window::new(zero_vec(1)));
                                    proof {
                                        let rem2 = reader_rem(fut.stream());
                                        assert(rem2 =~= grem.skip(1));
                                        assert(grem.len() > 0 && grem[0] != 10);
                                        assert(line_len(grem) == 1 + line_len(grem.skip(1)));
                                        assert forall|
                                            o: MatchOutcome<PatternReader<R>, Vec<u8>, IoError>,
                                        |
                                            line_state_admits(got@, rem2, gready, o) implies old(
                                            self,
                                        ).admits(o) by {
                                            lemma_line_len_bound(rem2);
                                            match o {
                                                MatchOutcome::Matched(m2b, v) => {
                                                    assert(got@ + rem2.take(line_len(rem2))
                                                        =~= ggot + grem.take(line_len(grem)));
                                                    assert(rem2.skip(line_len(rem2))
                                                        =~= grem.skip(line_len(grem)));
                                                    assert(line_state_admits(
                                                        ggot,
                                                        grem,
                                                        gready,
                                                        o,
                                                    ));
                                                },
                                                MatchOutcome::Failed(m2b, e) => {
                                                    if e.kind == ErrorKind::Other {
                                                        let k = choose|k: int|
                                                            0 <= k <= rem2.len() && reader_rem(
                                                                m2b,
                                                            ) == #[trigger] rem2.skip(k);
                                                        assert(rem2.skip(k) =~= grem.skip(
                                                            k + 1,
                                                        ));
                                                        assert(reader_rem(m2b) == grem.skip(
                                                            k + 1,
                                                        ));
                                                        assert(line_state_admits(
                                                            ggot,
                                                            grem,
                                                            gready,
                                                            o,
                                                        ));
                                                    }
                                                },
                                            }
                                        }
                                    }
                                }
                            }
                        },
                    }
                }
            },
            _ => vstd::pervasive::unreached(),
        }
    }
}

/// The outcomes of a line read in flight: `got` holds the newline-free
/// bytes seen so far, `rem` is the stream's remainder.
pub open spec fn line_state_admits<R: AsyncRead>(
    got: Seq<u8>,
    rem: Seq<u8>,
    ready0: bool,
    o: MatchOutcome<PatternReader<R>, Vec<u8>, IoError>,
) -> bool {
    match o {
        MatchOutcome::Matched(m2, v) => {
            &&& got + rem.take(line_len(rem)) == v@
            &&& (got.len() == 0 ==> rem.len() > 0)
            &&& reader_rem(m2) == rem.skip(line_len(rem))
            &&& reader_ready(m2) == ready0
        },
        MatchOutcome::Failed(m2, e) => {
            ||| (e.kind == ErrorKind::UnexpectedEos && got.len() == 0 && rem.len() == 0
                && reader_rem(m2) == rem && reader_ready(m2) == ready0)
            ||| until_stream_failed(rem, ready0, m2, e)
        },
    }
}

/// A line is the bytes up to and including the first newline; the final
/// line's newline is optional, and an already-exhausted stream is an
/// unexpected end.
impl<R: AsyncRead> AsyncMatch<PatternReader<R>> for Line {
    type Future = ReadLine<R>;

    open spec fn admits(
        self,
        m: PatternReader<R>,
        o: MatchOutcome<PatternReader<R>, Vec<u8>, IoError>,
    ) -> bool {
        match o {
            MatchOutcome::Matched(m2, v) => line_matched(reader_rem(m), reader_ready(m), m2, v@),
            MatchOutcome::Failed(m2, e) => {
                ||| (e.kind == ErrorKind::UnexpectedEos && reader_rem(m).len() == 0 && reader_rem(
                    m2,
                ) == reader_rem(m) && reader_ready(m2) == reader_ready(m))
                ||| until_stream_failed(reader_rem(m), reader_ready(m), m2, e)
            },
        }
    }

    open spec fn pre(self) -> bool {
        true
    }

    fn async_match(self, matcher: PatternReader<R>) -> (f: Self::Future) {
        let ghost gm = matcher;
        let fut = read(matcher, Window::new(zero_vec(1)));
        let r = ReadLine { state: Phase::A((fut, Vec::new())) };
        proof {
            assert(Seq::<u8>::empty() + reader_rem(gm).take(line_len(reader_rem(gm)))
                =~= reader_rem(gm).take(line_len(reader_rem(gm))));
        }
        r
    }
}

/// A future which will read all bytes remaining in a stream.
pub struct ReadAll<R: AsyncRead> {
    state: Phase<(ReadBytes<PatternReader<R>>, Vec<u8>), ()>,
}

impl<R: AsyncRead> MatchFuture<PatternReader<R>> for ReadAll<R> {
    type Value = Vec<u8>;

    closed spec fn done(&self) -> bool {
        !(self.state is A)
    }

    closed spec fn wf(&self) -> bool {
        match self.state {
            Phase::A((fut, got)) => {
                &&& !fut.done()
                &&& fut.wf()
                &&& fut.window().spec_len() >= 1
                &&& fut.window().spec_start() == 0
                &&& fut.window().spec_end() == fut.window().buf().len()
            },
            _ => true,
        }
    }

    closed spec fn ready(&self) -> bool {
        match self.state {
            Phase::A((fut, got)) => reader_ready(fut.stream()),
            _ => true,
        }
    }

    closed spec fn admits(&self, o: MatchOutcome<PatternReader<R>, Vec<u8>, IoError>) -> bool {
        match self.state {
            Phase::A((fut, got)) => {
                let rem = reader_rem(fut.stream());
                let ready0 = reader_ready(fut.stream());
                match o {
                    MatchOutcome::Matched(m2, v) => {
                        &&& v@ == got@ + rem
                        &&& reader_rem(m2).len() == 0
                        &&& reader_ready(m2) == ready0
                    },
                    MatchOutcome::Failed(m2, e) => until_stream_failed(rem, ready0, m2, e),
                }
            },
            _ => false,
        }
    }

    fn poll(&mut self) -> (r: Result<
        Async<(PatternReader<R>, Vec<u8>)>,
        AsyncError<PatternReader<R>, IoError>,
    >) {
        match self.state.take() {
            Phase::A((fut0, got0)) => {
                let mut fut = fut0;
                let mut got = got0;
                loop
                    invariant
                        !fut.done(),
                        fut.wf(),
                        fut.window().spec_len() >= 1,
                        fut.window().spec_start() == 0,
                        fut.window().spec_end() == fut.window().buf().len(),
                        reader_ready(fut.stream()) == old(self).ready(),
                        forall|o: MatchOutcome<PatternReader<R>, Vec<u8>, IoError>|
                            all_state_admits(
                                got@,
                                reader_rem(fut.stream()),
                                reader_ready(fut.stream()),
                                o,
                            ) ==> old(self).admits(o),
                        self.done(),
                    decreases reader_rem(fut.stream()).len(),
                {
                    let ghost ggot = got@;
                    let ghost grem = reader_rem(fut.stream());
                    let ghost gready = reader_ready(fut.stream());
                    match fut.poll() {
                        Ok(Async::NotReady) => {
                            self.state = Phase::A((fut, got));
                            return Ok(Async::NotReady);
                        },
                        Err(e) => {
                            let (st, err) = e.unwrap();
                            let (m2, _w) = st;
                            proof {
                                assert(grem.skip(0) =~= grem);
                                assert(reader_rem(m2) == grem.skip(0));
                                assert(all_state_admits(
                                    ggot,
                                    grem,
                                    gready,
                                    MatchOutcome::Failed(m2, err),
                                ));
                            }
                            return Err(AsyncError::new(m2, err));
                        },
                        Ok(Async::Ready((m2, w2, n))) => {
                            if n == 0 {
                                let ghost ggv = got;
                                proof {
                                    assert(grem.len() == 0);
                                    assert(ggot + grem =~= ggot);
                                    assert(all_state_admits(
                                        ggot,
                                        grem,
                                        gready,
                                        MatchOutcome::Matched(m2, ggv),
                                    ));
                                }
                                return Ok(Async::Ready((m2, got)));
                            } else {
                                let bytes = w2.into_inner();
                                let mut i: usize = 0;
                                proof {
                                    assert(ggot + grem.take(0) =~= ggot);
                                    assert(bytes@.take(n as int) =~= grem.take(n as int));
                                }
                                while i < n
                                    invariant
                                        i <= n,
                                        n <= bytes@.len(),
                                        n <= grem.len(),
                                        bytes@.take(n as int) =~= grem.take(n as int),
                                        got@ == ggot + grem.take(i as int),
                                    decreases n - i,
                                {
                                    proof {
                                        assert((ggot + grem.take(i as int)).push(grem[i as int])
                                            =~= ggot + grem.take(i + 1));
                                        assert(bytes@[i as int]
                                            == bytes@.take(n as int)[i as int]);
                                    }
                                    got.push(bytes[i]);
                                    i = i + 1;
                                }
                                fut = read(m2, Window::new(zero_vec(1024)));
                                proof {
                                    let rem2 = reader_rem(fut.stream());
                                    assert(rem2 =~= grem.skip(n as int));
                                    assert forall|
                                        o: MatchOutcome<PatternReader<R>, Vec<u8>, IoError>,
                                    | all_state_admits(got@, rem2, gready, o) implies old(
                                        self,
                                    ).admits(o) by {
                                        match o {
                                            MatchOutcome::Matched(m2b, v) => {
                                                assert(got@ + rem2 =~= ggot + grem);
                                                assert(all_state_admits(ggot, grem, gready, o));
                                            },
                                            MatchOutcome::Failed(m2b, e) => {
                                                if e.kind == ErrorKind::Other {
                                                    let k = choose|k: int|
                                                        0 <= k <= rem2.len() && reader_rem(m2b)
                                                            == #[trigger] rem2.skip(k);
                                                    assert(rem2.skip(k) =~= grem.skip(
                                                        k + n as int,
                                                    ));
                                                    assert(reader_rem(m2b) == grem.skip(
                                                        k + n as int,
                                                    ));
                                                    assert(all_state_admits(
                                                        ggot,
                                                        grem,
                                                        gready,
                                                        o,
                                                    ));
                                                }
                                            },
                                        }
                                    }
                                }
                            }
                        },
                    }
                }
            },
            _ => vstd::pervasive::unreached(),
        }
    }
}

/// The outcomes of a read-to-end in flight: the value is everything read so
/// far plus everything the stream still holds.
pub open spec fn all_state_admits<R: AsyncRead>(
    got: Seq<u8>,
    rem: Seq<u8>,
    ready0: bool,
    o: MatchOutcome<PatternReader<R>, Vec<u8>, IoError>,
) -> bool {
    match o {
        MatchOutcome::Matched(m2, v) => {
            &&& v@ == got + rem
            &&& reader_rem(m2).len() == 0
            &&& reader_ready(m2) == ready0
        },
        MatchOutcome::Failed(m2, e) => until_stream_failed(rem, ready0, m2, e),
    }
}

/// Reading all remaining bytes succeeds on every stream whose source does
/// not itself fail, draining the stream.
impl<R: AsyncRead> AsyncMatch<PatternReader<R>> for All {
    type Future = ReadAll<R>;

    open spec fn admits(
        self,
        m: PatternReader<R>,
        o: MatchOutcome<PatternReader<R>, Vec<u8>, IoError>,
    ) -> bool {
        match o {
            MatchOutcome::Matched(m2, v) => {
                &&& v@ == reader_rem(m)
                &&& reader_rem(m2).len() == 0
                &&& reader_ready(m2) == reader_ready(m)
            },
            MatchOutcome::Failed(m2, e) => until_stream_failed(
                reader_rem(m),
                reader_ready(m),
                m2,
                e,
            ),
        }
    }

    open spec fn pre(self) -> bool {
        true
    }

    fn async_match(self, matcher: PatternReader<R>) -> (f: Self::Future) {
        let ghost gm = matcher;
        let fut = read(matcher, Window::new(zero_vec(1024)));
        let r = ReadAll { state: Phase::A((fut, Vec::new())) };
        proof {
            assert(Seq::<u8>::empty() + reader_rem(gm) =~= reader_rem(gm));
        }
        r
    }
}

/// A future which will fill the active region of a window, handing the
/// window back with its cursor untouched.
pub struct ReadWin<R: AsyncRead> {
    inner: ReadExact<PatternReader<R>>,
    start0: usize,
}

impl<R: AsyncRead> MatchFuture<PatternReader<R>> for ReadWin<R> {
    type Value = Window;

    closed spec fn done(&self) -> bool {
        self.inner.done()
    }

    closed spec fn wf(&self) -> bool {
        &&& self.inner.wf()
        &&& self.inner.orig_window().wf()
        &&& self.inner.orig_window().spec_start() == self.start0
    }

    closed spec fn ready(&self) -> bool {
        self.inner.ready()
    }

    closed spec fn admits(&self, o: MatchOutcome<PatternReader<R>, Window, IoError>) -> bool {
        let w0 = self.inner.orig_window();
        let rem0 = self.inner.orig_rem();
        match o {
            MatchOutcome::Matched(m2, w) => {
                &&& w0.spec_len() <= rem0.len()
                &&& w.wf()
                &&& w.spec_start() == w0.spec_start()
                &&& w.spec_end() == w0.spec_end()
                &&& w.buf() == crate::pattern::splice(
                    w0.buf(),
                    w0.spec_start(),
                    rem0.take(w0.spec_len()),
                )
                &&& reader_rem(m2) == rem0.skip(w0.spec_len())
                &&& reader_ready(m2) == self.ready()
            },
            MatchOutcome::Failed(m2, e) => read_failed(
                w0.spec_len(),
                rem0,
                self.ready(),
                m2,
                e,
            ),
        }
    }

    fn poll(&mut self) -> (r: Result<
        Async<(PatternReader<R>, Window)>,
        AsyncError<PatternReader<R>, IoError>,
    >) {
        let ghost w0 = self.inner.orig_window();
        let ghost s0 = self.inner.orig_rem();
        let start0 = self.start0;
        match self.inner.poll() {
            Ok(Async::Ready((m2, w2))) => {
                let w = w2.set_start(start0);
                Ok(Async::Ready((m2, w)))
            },
            Ok(Async::NotReady) => Ok(Async::NotReady),
            Err(e) => {
                let (st, err) = e.unwrap();
                let (m2, _w) = st;
                proof {
                    if err.kind == ErrorKind::Other {
                        let k = choose|k: int|
                            {
                                &&& 0 <= k <= s0.len()
                                &&& k <= w0.spec_len()
                                &&& _w.wf()
                                &&& _w.spec_start() == w0.spec_start() + k
                                &&& _w.spec_end() == w0.spec_end()
                                &&& _w.buf() == crate::pattern::splice(
                                    w0.buf(),
                                    w0.spec_start(),
                                    s0.take(k),
                                )
                                &&& reader_rem(m2) == s0.skip(k)
                            };
                        assert(reader_rem(m2) == s0.skip(k));
                    }
                }
                Err(AsyncError::new(m2, err))
            },
        }
    }
}

impl Pattern for Window {
    type Value = Window;
}

/// A window pattern reads exactly its active region, handing the filled
/// window back with the same cursor.
impl<R: AsyncRead> AsyncMatch<PatternReader<R>> for Window {
    type Future = ReadWin<R>;

    open spec fn admits(
        self,
        m: PatternReader<R>,
        o: MatchOutcome<PatternReader<R>, Window, IoError>,
    ) -> bool {
        match o {
            MatchOutcome::Matched(m2, w) => {
                &&& self.spec_len() <= reader_rem(m).len()
                &&& w.wf()
                &&& w.spec_start() == self.spec_start()
                &&& w.spec_end() == self.spec_end()
                &&& w.buf() == crate::pattern::splice(
                    self.buf(),
                    self.spec_start(),
                    reader_rem(m).take(self.spec_len()),
                )
                &&& reader_rem(m2) == reader_rem(m).skip(self.spec_len())
                &&& reader_ready(m2) == reader_ready(m)
            },
            MatchOutcome::Failed(m2, e) => read_failed(
                self.spec_len(),
                reader_rem(m),
                reader_ready(m),
                m2,
                e,
            ),
        }
    }

    open spec fn pre(self) -> bool {
        self.wf()
    }

    fn async_match(self, matcher: PatternReader<R>) -> (f: Self::Future) {
        let start0 = self.start();
        ReadWin { inner: read_exact(matcher, self), start0 }
    }
}

/// Relies on `String::from_utf8`: it succeeds exactly on valid UTF-8 input
/// and decodes the bytes into the string's characters; the invalid input is
/// discarded on failure, as the documentation allows.
#[verifier::external_body]
fn from_utf8_bytes(b: Vec<u8>) -> (r: Result<String, ()>)
    ensures
        match r {
            Ok(s) => valid_utf8(b@) && s@ == decode_utf8(b@),
            Err(u) => !valid_utf8(b@),
        },
{
    match String::from_utf8(b) {
        Ok(s) => Ok(s),
        Err(_) => Err(()),
    }
}

/// A UTF-8 read resolved: the wrapped pattern produced bytes that are
/// valid UTF-8, and the string holds their decoding.
pub open spec fn utf8_matched<R: AsyncRead, P>(
    p: P,
    m: PatternReader<R>,
    m2: PatternReader<R>,
    s: Seq<char>,
) -> bool where P: AsyncMatch<PatternReader<R>, Value = Vec<u8>> {
    exists|b: Vec<u8>|
        #[trigger] p.admits(m, MatchOutcome::Matched(m2, b)) && valid_utf8(b@) && decode_utf8(b@)
            == s
}

/// A UTF-8 read failed: in the byte pattern, or because the bytes do not
/// decode as UTF-8.
pub open spec fn utf8_failed<R: AsyncRead, P>(
    p: P,
    m: PatternReader<R>,
    m2: PatternReader<R>,
    e: IoError,
) -> bool where P: AsyncMatch<PatternReader<R>, Value = Vec<u8>> {
    ||| p.admits(m, MatchOutcome::Failed(m2, e))
    ||| exists|b: Vec<u8>|
        #[trigger] p.admits(m, MatchOutcome::Matched(m2, b)) && !valid_utf8(b@) && e.kind
            == ErrorKind::InvalidData
}

/// Like [`utf8_matched`], for an in-flight byte operation.
pub open spec fn utf8_fut_matched<R: AsyncRead, P>(
    f0: P::Future,
    m2: PatternReader<R>,
    s: Seq<char>,
) -> bool where P: AsyncMatch<PatternReader<R>, Value = Vec<u8>> {
    exists|b: Vec<u8>|
        #[trigger] f0.admits(MatchOutcome::Matched(m2, b)) && valid_utf8(b@) && decode_utf8(b@)
            == s
}

/// Like [`utf8_failed`], for an in-flight byte operation.
pub open spec fn utf8_fut_failed<R: AsyncRead, P>(
    f0: P::Future,
    m2: PatternReader<R>,
    e: IoError,
) -> bool where P: AsyncMatch<PatternReader<R>, Value = Vec<u8>> {
    ||| f0.admits(MatchOutcome::Failed(m2, e))
    ||| exists|b: Vec<u8>|
        #[trigger] f0.admits(MatchOutcome::Matched(m2, b)) && !valid_utf8(b@) && e.kind
            == ErrorKind::InvalidData
}

/// A future which will read a UTF-8 string through the wrapped byte
/// pattern, validating the bytes.
pub struct ReadUtf8<R: AsyncRead, P: AsyncMatch<PatternReader<R>>> {
    inner: P::Future,
}

impl<R: AsyncRead, P> MatchFuture<PatternReader<R>> for ReadUtf8<R, P> where
    P: AsyncMatch<PatternReader<R>, Value = Vec<u8>>,
 {
    type Value = String;

    closed spec fn done(&self) -> bool {
        self.inner.done()
    }

    closed spec fn wf(&self) -> bool {
        !self.inner.done() && self.inner.wf()
    }

    closed spec fn ready(&self) -> bool {
        self.inner.ready()
    }

    closed spec fn admits(&self, o: MatchOutcome<PatternReader<R>, String, IoError>) -> bool {
        match o {
            MatchOutcome::Matched(m2, s) => utf8_fut_matched::<R, P>(self.inner, m2, s@),
            MatchOutcome::Failed(m2, e) => utf8_fut_failed::<R, P>(self.inner, m2, e),
        }
    }

    fn poll(&mut self) -> (r: Result<
        Async<(PatternReader<R>, String)>,
        AsyncError<PatternReader<R>, IoError>,
    >) {
        let ghost gf0 = self.inner;
        match self.inner.poll() {
            Ok(Async::Ready((m2, b))) => {
                let ghost gb = b;
                match from_utf8_bytes(b) {
                    Ok(s) => {
                        proof {
                            assert(gf0.admits(MatchOutcome::Matched(m2, gb)) && valid_utf8(gb@)
                                && decode_utf8(gb@) == s@);
                            assert(utf8_fut_matched::<R, P>(gf0, m2, s@));
                        }
                        Ok(Async::Ready((m2, s)))
                    },
                    Err(_) => {
                        let e = IoError::new(ErrorKind::InvalidData);
                        proof {
                            assert(gf0.admits(MatchOutcome::Matched(m2, gb)) && !valid_utf8(gb@));
                            assert(utf8_fut_failed::<R, P>(
                                gf0,
                                m2,
                                IoError { kind: ErrorKind::InvalidData },
                            ));
                        }
                        Err(AsyncError::new(m2, e))
                    },
                }
            },
            Ok(Async::NotReady) => {
                proof {
                    assert forall|o: MatchOutcome<PatternReader<R>, String, IoError>|
                        final(self).admits(o) implies old(self).admits(o) by {
                        match o {
                            MatchOutcome::Matched(m2, s) => {
                                let b = choose|b: Vec<u8>|
                                    #[trigger] final(self).inner.admits(
                                        MatchOutcome::Matched(m2, b),
                                    ) && valid_utf8(b@) && decode_utf8(b@) == s@;
                                assert(gf0.admits(MatchOutcome::Matched(m2, b)) && valid_utf8(b@)
                                    && decode_utf8(b@) == s@);
                                assert(utf8_fut_matched::<R, P>(gf0, m2, s@));
                            },
                            MatchOutcome::Failed(m2, e) => {
                                if !final(self).inner.admits(MatchOutcome::Failed(m2, e)) {
                                    let b = choose|b: Vec<u8>|
                                        #[trigger] final(self).inner.admits(
                                            MatchOutcome::Matched(m2, b),
                                        ) && !valid_utf8(b@) && e.kind == ErrorKind::InvalidData;
                                    assert(gf0.admits(MatchOutcome::Matched(m2, b))
                                        && !valid_utf8(b@));
                                    assert(utf8_fut_failed::<R, P>(gf0, m2, e));
                                }
                            },
                        }
                    }
                }
                Ok(Async::NotReady)
            },
            Err(e) => Err(e),
        }
    }
}

/// A UTF-8 string pattern: the wrapped pattern produces the bytes, which
/// must decode as UTF-8; invalid data fails the match and is discarded.
impl<R: AsyncRead, P> AsyncMatch<PatternReader<R>> for Utf8<P> where
    P: AsyncMatch<PatternReader<R>, Value = Vec<u8>>,
 {
    type Future = ReadUtf8<R, P>;

    open spec fn admits(
        self,
        m: PatternReader<R>,
        o: MatchOutcome<PatternReader<R>, String, IoError>,
    ) -> bool {
        match o {
            MatchOutcome::Matched(m2, s) => utf8_matched(self.0, m, m2, s@),
            MatchOutcome::Failed(m2, e) => utf8_failed(self.0, m, m2, e),
        }
    }

    open spec fn pre(self) -> bool {
        self.0.pre()
    }

    fn async_match(self, matcher: PatternReader<R>) -> (f: Self::Future) {
        let ghost gself = self;
        let sub = self.0.async_match(matcher);
        let ghost gsub = sub;
        let r = ReadUtf8::<R, P> { inner: sub };
        proof {
            assert forall|o: MatchOutcome<PatternReader<R>, String, IoError>| r.admits(o)
                implies gself.admits(matcher, o) by {
                match o {
                    MatchOutcome::Matched(m2, s) => {
                        let b = choose|b: Vec<u8>|
                            #[trigger] gsub.admits(MatchOutcome::Matched(m2, b)) && valid_utf8(b@)
                                && decode_utf8(b@) == s@;
                        assert(gself.0.admits(matcher, MatchOutcome::Matched(m2, b))
                            && valid_utf8(b@) && decode_utf8(b@) == s@);
                    },
                    MatchOutcome::Failed(m2, e) => {
                        if !gsub.admits(MatchOutcome::Failed(m2, e)) {
                            let b = choose|b: Vec<u8>|
                                #[trigger] gsub.admits(MatchOutcome::Matched(m2, b))
                                    && !valid_utf8(b@) && e.kind == ErrorKind::InvalidData;
                            assert(gself.0.admits(matcher, MatchOutcome::Matched(m2, b))
                                && !valid_utf8(b@));
                        }
                    },
                }
            }
        }
        r
    }
}

/// A future which will fill a buffer to the extent a single transfer
/// allows: one non-empty read, reporting how many bytes arrived.
pub struct ReadPartialBuf<R: AsyncRead> {
    inner: ReadNonEmpty<PatternReader<R>>,
}

impl<R: AsyncRead> MatchFuture<PatternReader<R>> for ReadPartialBuf<R> {
    type Value = (Vec<u8>, usize);

    closed spec fn done(&self) -> bool {
        self.inner.done()
    }

    closed spec fn wf(&self) -> bool {
        &&& self.inner.wf()
        &&& !self.inner.done() ==> self.inner.window().wf() && self.inner.window().spec_start()
            == 0 && self.inner.window().spec_end() == self.inner.window().buf().len()
    }

    closed spec fn ready(&self) -> bool {
        reader_ready(self.inner.stream())
    }

    closed spec fn admits(
        &self,
        o: MatchOutcome<PatternReader<R>, (Vec<u8>, usize), IoError>,
    ) -> bool {
        let w0 = self.inner.window();
        let rem0 = reader_rem(self.inner.stream());
        match o {
            MatchOutcome::Matched(m2, v) => partial_buf_matched(
                w0.buf(),
                rem0,
                self.ready(),
                m2,
                v.0@,
                v.1 as int,
            ),
            MatchOutcome::Failed(m2, e) => {
                &&& reader_ready(m2) == self.ready()
                &&& (e.kind == ErrorKind::UnexpectedEos || e.kind == ErrorKind::Other)
                &&& (e.kind == ErrorKind::UnexpectedEos ==> rem0.len() == 0 && w0.spec_len() > 0)
                &&& reader_rem(m2) == rem0
            },
        }
    }

    fn poll(&mut self) -> (r: Result<
        Async<(PatternReader<R>, (Vec<u8>, usize))>,
        AsyncError<PatternReader<R>, IoError>,
    >) {
        let ghost s0 = reader_rem(self.inner.stream());
        let ghost w0 = self.inner.window();
        match self.inner.poll() {
            Ok(Async::Ready((m2, w2, n))) => {
                let v = w2.into_inner();
                proof {
                    assert(v@ =~= crate::pattern::splice(w0.buf(), 0, s0.take(n as int)));
                }
                Ok(Async::Ready((m2, (v, n))))
            },
            Ok(Async::NotReady) => Ok(Async::NotReady),
            Err(e) => {
                let (st, err) = e.unwrap();
                let (m2, _w) = st;
                proof {
                    assert(s0.skip(0) =~= s0);
                }
                Err(AsyncError::new(m2, err))
            },
        }
    }
}

/// A single partial fill: `n` bytes moved from the front of the remainder
/// into the front of the buffer, `n` being the stream's choice — positive
/// unless nothing was wanted.
pub open spec fn partial_buf_matched<R: AsyncRead>(
    buf0: Seq<u8>,
    rem0: Seq<u8>,
    ready0: bool,
    m2: PatternReader<R>,
    v: Seq<u8>,
    n: int,
) -> bool {
    &&& 0 <= n <= buf0.len()
    &&& n <= rem0.len()
    &&& (n == 0 <==> buf0.len() == 0)
    &&& v == crate::pattern::splice(buf0, 0, rem0.take(n))
    &&& reader_rem(m2) == rem0.skip(n)
    &&& reader_ready(m2) == ready0
}

/// A partially fillable buffer performs exactly one transfer attempt; an
/// exhausted stream is an unexpected end unless nothing was wanted.
impl<R: AsyncRead> AsyncMatch<PatternReader<R>> for PartialBuf {
    type Future = ReadPartialBuf<R>;

    open spec fn admits(
        self,
        m: PatternReader<R>,
        o: MatchOutcome<PatternReader<R>, (Vec<u8>, usize), IoError>,
    ) -> bool {
        match o {
            MatchOutcome::Matched(m2, v) => partial_buf_matched(
                self.0@,
                reader_rem(m),
                reader_ready(m),
                m2,
                v.0@,
                v.1 as int,
            ),
            MatchOutcome::Failed(m2, e) => {
                &&& reader_ready(m2) == reader_ready(m)
                &&& (e.kind == ErrorKind::UnexpectedEos || e.kind == ErrorKind::Other)
                &&& (e.kind == ErrorKind::UnexpectedEos ==> reader_rem(m).len() == 0 && self.0@.len()
                    > 0)
                &&& reader_rem(m2) == reader_rem(m)
            },
        }
    }

    open spec fn pre(self) -> bool {
        true
    }

    fn async_match(self, matcher: PatternReader<R>) -> (f: Self::Future) {
        ReadPartialBuf { inner: read_non_empty(matcher, Window::new(self.0)) }
    }
}

/// A string read resolved: as many bytes as the string itself occupies were
/// consumed, were valid UTF-8, and decode to the value.
pub open spec fn string_matched<R: AsyncRead>(
    n: int,
    rem0: Seq<u8>,
    ready0: bool,
    m2: PatternReader<R>,
    s: Seq<char>,
) -> bool {
    &&& n <= rem0.len()
    &&& valid_utf8(rem0.take(n))
    &&& decode_utf8(rem0.take(n)) == s
    &&& reader_rem(m2) == rem0.skip(n)
    &&& reader_ready(m2) == ready0
}

/// A string read failed: in the byte transfer, or because the bytes do not
/// decode as UTF-8.
pub open spec fn string_failed<R: AsyncRead>(
    n: int,
    rem0: Seq<u8>,
    ready0: bool,
    m2: PatternReader<R>,
    e: IoError,
) -> bool {
    ||| read_failed(n, rem0, ready0, m2, e)
    ||| (n <= rem0.len() && !valid_utf8(rem0.take(n)) && e.kind == ErrorKind::InvalidData
        && reader_rem(m2) == rem0.skip(n) && reader_ready(m2) == ready0)
}

/// A future which will read a `String`: as many bytes as the pattern
/// string occupies, validated as UTF-8.
pub type ReadString<R> = ReadUtf8<R, Buf>;

/// A string pattern reads exactly as many bytes as the string itself
/// occupies, which must again be valid UTF-8; the prior contents are
/// replaced.
impl<R: AsyncRead> AsyncMatch<PatternReader<R>> for String {
    type Future = ReadString<R>;

    open spec fn admits(
        self,
        m: PatternReader<R>,
        o: MatchOutcome<PatternReader<R>, String, IoError>,
    ) -> bool {
        match o {
            MatchOutcome::Matched(m2, s) => string_matched(
                encode_utf8(self@).len() as usize as int,
                reader_rem(m),
                reader_ready(m),
                m2,
                s@,
            ),
            MatchOutcome::Failed(m2, e) => string_failed(
                encode_utf8(self@).len() as usize as int,
                reader_rem(m),
                reader_ready(m),
                m2,
                e,
            ),
        }
    }

    open spec fn pre(self) -> bool {
        true
    }

    fn async_match(self, matcher: PatternReader<R>) -> (f: Self::Future) {
        let ghost gs = self@;
        let ghost gm = matcher;
        let n = self.as_str().len();
        let p = Utf8(Buf(zero_vec(n)));
        let ghost gp = p;
        let r = p.async_match(matcher);
        proof {
            let nn = encode_utf8(gs).len() as usize as int;
            assert(n == nn);
            assert forall|o: MatchOutcome<PatternReader<R>, String, IoError>| r.admits(o)
                implies self.admits(gm, o) by {
                assert(gp.admits(gm, o));
                match o {
                    MatchOutcome::Matched(m2, sv) => {
                        let b = choose|b: Vec<u8>|
                            #[trigger] gp.0.admits(gm, MatchOutcome::Matched(m2, b)) && valid_utf8(
                                b@,
                            ) && decode_utf8(b@) == sv@;
                        assert(b@ == reader_rem(gm).take(nn));
                    },
                    MatchOutcome::Failed(m2, e) => {
                        if !gp.0.admits(gm, MatchOutcome::Failed(m2, e)) {
                            let b = choose|b: Vec<u8>|
                                #[trigger] gp.0.admits(gm, MatchOutcome::Matched(m2, b))
                                    && !valid_utf8(b@) && e.kind == ErrorKind::InvalidData;
                            assert(b@ == reader_rem(gm).take(nn));
                        }
                    },
                }
            }
        }
        r
    }
}

} // verus!
