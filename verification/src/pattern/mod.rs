//! Patterns: inert descriptors of decode/encode goals.

use vstd::prelude::*;

pub mod combinators;
pub mod read;
pub mod write;

verus! {

/// A pattern: an inert value describing a decode or encode goal.  It has no
/// behavior until bound to a matcher via
/// [`AsyncMatch`](crate::matcher::async_match::AsyncMatch).
pub trait Pattern: Sized {
    /// The value type associated to the pattern.
    type Value;
}

/// A window of a byte buffer: the buffer plus a start/end cursor that tracks
/// how much of a multi-step transfer is still outstanding.
///
/// Invariant: `start <= end <= buffer length`.  The *active region* is
/// `buffer[start..end]`; `skip` advances `start` as bytes arrive.
#[derive(Debug, Clone)]
#[verifier::ext_equal]
pub struct Window {
    inner: Vec<u8>,
    start: usize,
    end: usize,
}

impl Window {
    /// The window is well formed: the cursor lies within the buffer.
    pub open spec fn wf(&self) -> bool {
        0 <= self.spec_start() <= self.spec_end() <= self.buf().len()
    }

    /// The start position of the window.
    pub closed spec fn spec_start(&self) -> int {
        self.start as int
    }

    /// The end position of the window.
    pub closed spec fn spec_end(&self) -> int {
        self.end as int
    }

    /// The whole underlying buffer.
    pub closed spec fn buf(&self) -> Seq<u8> {
        self.inner@
    }

    /// The active (still unconsumed) region: `buffer[start..end]`.
    pub open spec fn active(&self) -> Seq<u8> {
        self.buf().subrange(self.spec_start(), self.spec_end())
    }

    /// Number of bytes still active.
    pub open spec fn spec_len(&self) -> int {
        self.spec_end() - self.spec_start()
    }

    /// Makes a new window spanning the whole buffer.
    pub fn new(buf: Vec<u8>) -> (w: Self)
        ensures
            w.wf(),
            w.buf() == buf@,
            w.spec_start() == 0,
            w.spec_end() == buf@.len(),
    {
        let end = buf.len();
        Window { inner: buf, start: 0, end }
    }

    /// Makes a new window over `buf` whose active region starts at
    /// `offset`.
    pub fn with_offset(buf: Vec<u8>, offset: usize) -> (w: Self)
        requires
            offset <= buf@.len(),
        ensures
            w.wf(),
            w.buf() == buf@,
            w.spec_start() == offset,
            w.spec_end() == buf@.len(),
    {
        let end = buf.len();
        Window { inner: buf, start: offset, end }
    }

    /// Makes a new window for a buffer that is only read from.
    pub fn new_ref(buf: Vec<u8>) -> (w: Self)
        ensures
            w.wf(),
            w.buf() == buf@,
            w.spec_start() == 0,
            w.spec_end() == buf@.len(),
    {
        Self::new(buf)
    }

    /// Makes a new window for a buffer that is written into.
    pub fn new_mut(buf: Vec<u8>) -> (w: Self)
        ensures
            w.wf(),
            w.buf() == buf@,
            w.spec_start() == 0,
            w.spec_end() == buf@.len(),
    {
        Self::new(buf)
    }

    /// Returns the immutable reference of the internal buffer.
    pub fn inner_ref(&self) -> (r: &Vec<u8>)
        ensures
            r@ == self.buf(),
    {
        &self.inner
    }

    /// Converts to the internal buffer, discarding the cursor.
    pub fn into_inner(self) -> (r: Vec<u8>)
        ensures
            r@ == self.buf(),
    {
        self.inner
    }

    /// Returns the start point of the window.
    pub fn start(&self) -> (r: usize)
        ensures
            r == self.spec_start(),
    {
        self.start
    }

    /// Returns the end point of the window.
    pub fn end(&self) -> (r: usize)
        ensures
            r == self.spec_end(),
    {
        self.end
    }

    /// Number of bytes in the active region.
    pub fn len(&self) -> (r: usize)
        requires
            self.wf(),
        ensures
            r == self.spec_len(),
    {
        self.end - self.start
    }

    /// The result of advancing the window over its first `size` bytes.
    pub closed spec fn spec_skip(self, size: int) -> Window {
        Window { inner: self.inner, start: (self.spec_start() + size) as usize, end: self.end }
    }

    /// Converts to a new window that skips the first `size` active bytes.
    pub fn skip(self, size: usize) -> (r: Self)
        requires
            self.wf(),
            self.spec_start() + size <= self.spec_end(),
        ensures
            r == self.spec_skip(size as int),
            r.wf(),
            r.buf() == self.buf(),
            r.spec_start() == self.spec_start() + size,
            r.spec_end() == self.spec_end(),
            r.active() == self.active().skip(size as int),
    {
        let r = Window { inner: self.inner, start: self.start + size, end: self.end };
        proof {
            assert(r.active() =~= self.active().skip(size as int));
        }
        r
    }

    /// Converts to a new window with the last `size` active bytes removed.
    pub fn take(self, size: usize) -> (r: Self)
        requires
            self.wf(),
            self.spec_start() + size <= self.spec_end(),
        ensures
            r.wf(),
            r.buf() == self.buf(),
            r.spec_start() == self.spec_start(),
            r.spec_end() == self.spec_end() - size,
            r.active() == self.active().take(self.spec_len() - size),
    {
        let r = Window { inner: self.inner, start: self.start, end: self.end - size };
        proof {
            assert(r.active() =~= self.active().take(self.spec_len() - size));
        }
        r
    }

    /// Sets the start position of the window.
    pub fn set_start(self, start: usize) -> (r: Self)
        requires
            self.wf(),
            start <= self.spec_end(),
        ensures
            r.wf(),
            r.buf() == self.buf(),
            r.spec_start() == start,
            r.spec_end() == self.spec_end(),
    {
        Window { inner: self.inner, start, end: self.end }
    }

    /// Sets the end position of the window.
    pub fn set_end(self, end: usize) -> (r: Self)
        requires
            self.wf(),
            self.spec_start() <= end <= self.buf().len(),
        ensures
            r.wf(),
            r.buf() == self.buf(),
            r.spec_start() == self.spec_start(),
            r.spec_end() == end,
    {
        Window { inner: self.inner, start: self.start, end }
    }
}

/// A pattern which represents a byte-buffer to fill (reading) or to send
/// (writing), wholesale.
pub struct Buf(pub Vec<u8>);


/// A pattern which represents branches in a pattern: a tagged choice among
/// up to eight alternatives, all producing the same value type.  Exactly
/// one alternative is selected when the value is built; matching drives
/// only that one.
pub enum Branch<A, B = A, C = A, D = A, E = A, F = A, G = A, H = A> {
    /// Alternative `A`.
    A(A),
    /// Alternative `B`.
    B(B),
    /// Alternative `C`.
    C(C),
    /// Alternative `D`.
    D(D),
    /// Alternative `E`.
    E(E),
    /// Alternative `F`.
    F(F),
    /// Alternative `G`.
    G(G),
    /// Alternative `H`.
    H(H),
}

impl<A: Pattern, B: Pattern, C: Pattern, D: Pattern, E: Pattern, F: Pattern, G: Pattern, H: Pattern> Pattern for Branch<A, B, C, D, E, F, G, H> {
    type Value = A::Value;
}

/// A value usable as a length prefix: it denotes a byte count, which may or
/// may not fit a machine word.
pub trait TryAsLength: Sized {
    /// The byte count this value denotes.
    spec fn as_len(self) -> int;

    /// Converts to a machine-word length; `None` where the count does not
    /// fit.
    fn to_length(self) -> (r: Option<usize>)
        ensures
            match r {
                Some(u) => u == self.as_len(),
                None => self.as_len() > usize::MAX,
            },
    ;
}

impl TryAsLength for u8 {
    open spec fn as_len(self) -> int {
        self as int
    }

    fn to_length(self) -> (r: Option<usize>) {
        Some(self as usize)
    }
}

impl TryAsLength for u16 {
    open spec fn as_len(self) -> int {
        self as int
    }

    fn to_length(self) -> (r: Option<usize>) {
        Some(self as usize)
    }
}

impl TryAsLength for u32 {
    open spec fn as_len(self) -> int {
        self as int
    }

    fn to_length(self) -> (r: Option<usize>) {
        if (self as u64) <= (usize::MAX as u64) {
            Some(self as usize)
        } else {
            None
        }
    }
}

impl TryAsLength for u64 {
    open spec fn as_len(self) -> int {
        self as int
    }

    fn to_length(self) -> (r: Option<usize>) {
        if self <= (usize::MAX as u64) {
            Some(self as usize)
        } else {
            None
        }
    }
}

/// A pattern which represents a sequence of patterns, matched in order.
pub struct Iter<P>(pub Vec<P>);

impl<P: Pattern> Pattern for Iter<P> {
    type Value = ();
}

impl<P> Iter<P> {
    /// Creates an `IterFold` combinator folding the values of the patterns
    /// in this sequence.
    pub fn fold<F, T>(self, init: T, f: F) -> (r: combinators::IterFold<P, F, T>)
        ensures
            r.patterns() == self.0@,
            r.func() == f,
            r.acc() == init,
    {
        combinators::iter_fold(self.0, f, init)
    }
}

/// A trait which marks a pattern as partially evaluable: one transfer
/// attempt instead of an exact fill.
pub trait AllowPartial: Sized {
    /// Indicates that this pattern is partially evaluable.
    fn allow_partial(self) -> combinators::PartialBuf;
}

impl AllowPartial for Vec<u8> {
    fn allow_partial(self) -> combinators::PartialBuf {
        combinators::PartialBuf(self)
    }
}

impl AllowPartial for Buf {
    fn allow_partial(self) -> combinators::PartialBuf {
        combinators::PartialBuf(self.0)
    }
}

/// A trait which marks a pattern as carrying an endianness: `le` and `be`
/// pick the byte order.
pub trait Endian: Sized {
    /// Marks this pattern as little endian.
    fn le(self) -> (r: combinators::LE<Self>)
        ensures
            r.0 == self,
    {
        combinators::LE(self)
    }

    /// Marks this pattern as big endian.
    fn be(self) -> (r: combinators::BE<Self>)
        ensures
            r.0 == self,
    {
        combinators::BE(self)
    }
}

/// `s` with the bytes starting at position `at` replaced by `patch`.
pub open spec fn splice(s: Seq<u8>, at: int, patch: Seq<u8>) -> Seq<u8> {
    s.take(at) + patch + s.skip(at + patch.len())
}

/// Two windows carry the same buffer and the same cursor.
pub open spec fn win_eq(a: Window, b: Window) -> bool {
    &&& a.buf() == b.buf()
    &&& a.spec_start() == b.spec_start()
    &&& a.spec_end() == b.spec_end()
}

/// Extending the patch of a splice by one byte is an update at the position
/// just past the patch.
pub proof fn lemma_splice_extend(s: Seq<u8>, at: int, patch: Seq<u8>, x: u8)
    requires
        0 <= at,
        at + patch.len() < s.len(),
    ensures
        splice(s, at, patch).update(at + patch.len(), x) == splice(s, at, patch.push(x)),
{
    assert(splice(s, at, patch).update(at + patch.len(), x) =~= splice(s, at, patch.push(x)));
}

/// Two consecutive splices are one splice of the concatenated patches.
pub proof fn lemma_splice_append(s: Seq<u8>, at: int, p1: Seq<u8>, p2: Seq<u8>)
    requires
        0 <= at,
        at + p1.len() + p2.len() <= s.len(),
    ensures
        splice(splice(s, at, p1), at + p1.len(), p2) == splice(s, at, p1 + p2),
{
    assert(splice(splice(s, at, p1), at + p1.len(), p2) =~= splice(s, at, p1 + p2));
}

/// Splicing an empty patch changes nothing.
pub proof fn lemma_splice_empty(s: Seq<u8>, at: int, p: Seq<u8>)
    requires
        0 <= at <= s.len(),
        p.len() == 0,
    ensures
        splice(s, at, p) == s,
{
    assert(splice(s, at, p) =~= s);
}

impl Window {
    /// Copies `n` bytes from `src[src_pos..]` into the front of the active
    /// region, leaving the cursor where it is.
    pub fn fill_from(&mut self, src: &Vec<u8>, src_pos: usize, n: usize)
        requires
            old(self).wf(),
            old(self).spec_start() + n <= old(self).spec_end(),
            src_pos + n <= src@.len(),
        ensures
            final(self).wf(),
            final(self).spec_start() == old(self).spec_start(),
            final(self).spec_end() == old(self).spec_end(),
            final(self).buf() == splice(
                old(self).buf(),
                old(self).spec_start(),
                src@.subrange(src_pos as int, src_pos + n),
            ),
    {
        let src_len = src.len();
        proof {
            assert(old(self).buf() =~= splice(
                old(self).buf(),
                old(self).spec_start(),
                src@.subrange(src_pos as int, src_pos as int),
            ));
        }
        let mut i: usize = 0;
        while i < n
            invariant
                self.wf(),
                self.start == old(self).spec_start(),
                self.end == old(self).spec_end(),
                self.start + n <= self.end,
                src_pos + n <= src_len,
                src_len == src@.len(),
                i <= n,
                self.inner@.len() == old(self).buf().len(),
                self.inner@ == splice(
                    old(self).buf(),
                    self.start as int,
                    src@.subrange(src_pos as int, src_pos + i),
                ),
            decreases n - i,
        {
            proof {
                lemma_splice_extend(
                    old(self).buf(),
                    self.start as int,
                    src@.subrange(src_pos as int, src_pos + i),
                    src@[src_pos + i],
                );
                assert(src@.subrange(src_pos as int, src_pos + i).push(src@[src_pos + i])
                    =~= src@.subrange(src_pos as int, src_pos + i + 1));
            }
            let b = src[src_pos + i];
            self.inner.set(self.start + i, b);
            i = i + 1;
        }
        proof {
            assert(self.inner@ =~= splice(
                old(self).buf(),
                self.start as int,
                src@.subrange(src_pos as int, src_pos + n),
            ));
        }
    }

    /// The byte at offset `i` of the active region.
    pub fn active_at(&self, i: usize) -> (b: u8)
        requires
            self.wf(),
            i < self.spec_len(),
        ensures
            b == self.active()[i as int],
    {
        self.inner[self.start + i]
    }
}

/// Consuming a window in two steps is the same as consuming it in one:
/// `w.skip(n1).skip(n2)` equals `w.skip(n1 + n2)` whenever `n1 + n2` fits in
/// the active region.
pub proof fn lemma_skip_skip(w: Window, n1: int, n2: int)
    requires
        w.wf(),
        0 <= n1,
        0 <= n2,
        w.spec_start() + n1 + n2 <= w.spec_end(),
    ensures
        w.spec_skip(n1).spec_skip(n2) == w.spec_skip(n1 + n2),
{
}

} // verus!
