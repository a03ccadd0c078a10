//! In-memory streams: a byte source backed by a vector, and vector-backed
//! sinks.  These are the streams the library's own tests run against; they
//! also serve as reference implementations of the stream traits.

use vstd::prelude::*;
use crate::error::IoError;
use crate::io::{Async, AsyncRead, AsyncWrite};
use crate::pattern::Window;

verus! {

/// A byte source reading from an in-memory vector.
///
/// `chunk_size` caps how many bytes a single read attempt yields, which lets
/// tests simulate slow or partial I/O; `latency` makes the first read
/// attempts report "not ready", simulating a stream that would block.
#[derive(Debug)]
pub struct BytesStream {
    data: Vec<u8>,
    pos: usize,
    chunk_size: usize,
    latency: usize,
    throttled: bool,
}

impl BytesStream {
    #[verifier::type_invariant]
    spec fn type_inv(&self) -> bool {
        self.pos <= self.data@.len() && self.chunk_size >= 1
    }

    /// Makes a stream that yields `data` and is always ready.
    pub fn new(data: Vec<u8>) -> (s: Self)
        ensures
            s.rem() == data@,
            s.always_ready(),
    {
        let chunk_size = if data.len() == 0 { 1 } else { data.len() };
        BytesStream { data, pos: 0, chunk_size, latency: 0, throttled: false }
    }

    /// Makes an always-ready stream that yields at most `chunk_size` bytes
    /// per read attempt.
    pub fn with_chunk_size(data: Vec<u8>, chunk_size: usize) -> (s: Self)
        requires
            chunk_size >= 1,
        ensures
            s.rem() == data@,
            s.always_ready(),
    {
        BytesStream { data, pos: 0, chunk_size, latency: 0, throttled: false }
    }

    /// Makes a stream whose first `latency` read attempts report "not
    /// ready", and which afterwards yields at most `chunk_size` bytes per
    /// attempt.
    pub fn with_latency(data: Vec<u8>, chunk_size: usize, latency: usize) -> (s: Self)
        requires
            chunk_size >= 1,
        ensures
            s.rem() == data@,
            !s.always_ready(),
    {
        BytesStream { data, pos: 0, chunk_size, latency, throttled: true }
    }
}

impl AsyncRead for BytesStream {
    closed spec fn rem(&self) -> Seq<u8> {
        self.data@.skip(self.pos as int)
    }

    closed spec fn always_ready(&self) -> bool {
        !self.throttled
    }

    fn read(&mut self, buf: &mut Window) -> (r: Result<Async<usize>, IoError>) {
        proof {
            use_type_invariant(&*self);
        }
        if self.throttled && self.latency > 0 {
            self.latency = self.latency - 1;
            return Ok(Async::NotReady);
        }
        let want = buf.len();
        let avail = self.data.len() - self.pos;
        let mut n = if want < avail {
            want
        } else {
            avail
        };
        if n > self.chunk_size {
            n = self.chunk_size;
        }
        buf.fill_from(&self.data, self.pos, n);
        proof {
            assert(self.data@.subrange(self.pos as int, self.pos + n) =~= old(self).rem().take(
                n as int,
            ));
        }
        self.pos = self.pos + n;
        proof {
            assert(self.data@.skip(self.pos as int) =~= old(self).rem().skip(n as int));
        }
        Ok(Async::Ready(n))
    }
}

/// An in-memory sink with unbounded capacity: writing appends to the vector.
impl AsyncWrite for Vec<u8> {
    closed spec fn written(&self) -> Seq<u8> {
        self@
    }

    closed spec fn spare(&self) -> nat {
        (usize::MAX - self@.len()) as nat
    }

    closed spec fn always_ready(&self) -> bool {
        true
    }

    fn write(&mut self, buf: &Window) -> (r: Result<Async<usize>, IoError>) {
        let want = buf.len();
        let room = usize::MAX - self.len();
        let n = if want < room {
            want
        } else {
            room
        };
        proof {
            assert(old(self)@ + buf.active().take(0) =~= old(self)@);
        }
        let mut i: usize = 0;
        while i < n
            invariant
                i <= n,
                n <= buf.spec_len(),
                buf.wf(),
                self@ == old(self)@ + buf.active().take(i as int),
            decreases n - i,
        {
            proof {
                assert(buf.active().take(i as int).push(buf.active()[i as int]) =~= buf.active()
                    .take(i + 1));
            }
            let b = buf.active_at(i);
            self.push(b);
            i = i + 1;
        }
        Ok(Async::Ready(n))
    }

    fn flush(&mut self) -> (r: Result<Async<()>, IoError>) {
        Ok(Async::Ready(()))
    }
}

/// An in-memory sink that accepts at most `capacity` bytes in total, at most
/// `chunk_size` of them per write attempt.  Once full it accepts zero bytes,
/// which exact-transfer operations report as an unexpected end of stream.
#[derive(Debug, Clone)]
pub struct BoundedSink {
    data: Vec<u8>,
    capacity: usize,
    chunk_size: usize,
}

impl BoundedSink {
    /// Makes a sink accepting at most `capacity` bytes, `chunk_size` per
    /// write attempt.
    pub fn new(capacity: usize, chunk_size: usize) -> (s: Self)
        requires
            chunk_size >= 1,
        ensures
            s.written() == Seq::<u8>::empty(),
            s.spare() == capacity,
            s.always_ready(),
    {
        BoundedSink { data: Vec::new(), capacity, chunk_size }
    }

    /// The bytes accepted so far.
    pub fn contents(self) -> (r: Vec<u8>)
        ensures
            r@ == self.written(),
    {
        self.data
    }
}

impl AsyncWrite for BoundedSink {
    closed spec fn written(&self) -> Seq<u8> {
        self.data@
    }

    closed spec fn spare(&self) -> nat {
        if self.data@.len() <= self.capacity {
            (self.capacity - self.data@.len()) as nat
        } else {
            0
        }
    }

    closed spec fn always_ready(&self) -> bool {
        true
    }

    fn write(&mut self, buf: &Window) -> (r: Result<Async<usize>, IoError>) {
        let want = buf.len();
        let room = if self.data.len() <= self.capacity {
            self.capacity - self.data.len()
        } else {
            0
        };
        let mut n = if want < room {
            want
        } else {
            room
        };
        if n > self.chunk_size && self.chunk_size >= 1 {
            n = self.chunk_size;
        }
        proof {
            assert(old(self).data@ + buf.active().take(0) =~= old(self).data@);
        }
        let mut i: usize = 0;
        while i < n
            invariant
                i <= n,
                n <= buf.spec_len(),
                buf.wf(),
                self.data@ == old(self).data@ + buf.active().take(i as int),
                self.capacity == old(self).capacity,
                self.chunk_size == old(self).chunk_size,
            decreases n - i,
        {
            proof {
                assert(buf.active().take(i as int).push(buf.active()[i as int]) =~= buf.active()
                    .take(i + 1));
            }
            let b = buf.active_at(i);
            self.data.push(b);
            i = i + 1;
        }
        Ok(Async::Ready(n))
    }

    fn flush(&mut self) -> (r: Result<Async<()>, IoError>) {
        Ok(Async::Ready(()))
    }
}

} // verus!
