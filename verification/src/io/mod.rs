//! I/O operation related components.
//!
//! The stream traits here are the library's only interface to the outside
//! world: any object providing a non-blocking byte-oriented read or write.
//! An implementation performs at most one transfer attempt per call and
//! reports a *would block* condition as [`Async::NotReady`] instead of
//! blocking the caller.

use vstd::prelude::*;
use crate::error::{AsyncError, ErrorKind, IoError};
use crate::pattern::{splice, Window};

pub mod async_read;
pub mod async_write;
pub mod mem;
pub mod misc;
pub mod read_fixnum;
pub mod read_pattern;
pub mod write_pattern;

verus! {

/// I/O specific asynchronous error type.
pub type AsyncIoError<T> = AsyncError<T, IoError>;

/// The result of one poll of a suspendable operation: either the produced
/// value, or a signal that the underlying stream was not ready yet and the
/// poll must be repeated later.
#[derive(Debug, Clone, Copy, PartialEq, Eq)]
pub enum Async<T> {
    /// The operation resolved to a value.
    Ready(T),
    /// The underlying stream would block; nothing was consumed or produced.
    NotReady,
}

/// A non-blocking byte source.
///
/// The view `rem()` is the sequence of bytes the stream will still yield
/// before its end.  A single `read` moves a prefix of `rem()` into the front
/// of the window's active region; reading zero bytes into a non-empty window
/// signals end-of-stream.
pub trait AsyncRead: Sized {
    /// The bytes this stream will still yield before end-of-stream.
    spec fn rem(&self) -> Seq<u8>;

    /// Whether this stream never reports "would block".
    spec fn always_ready(&self) -> bool;

    /// Attempts exactly one read into the front of `buf`'s active region.
    fn read(&mut self, buf: &mut Window) -> (r: Result<Async<usize>, IoError>)
        requires
            old(buf).wf(),
        ensures
            final(self).always_ready() == old(self).always_ready(),
            final(buf).wf(),
            final(buf).spec_start() == old(buf).spec_start(),
            final(buf).spec_end() == old(buf).spec_end(),
            match r {
                Ok(Async::Ready(n)) => {
                    &&& n <= old(buf).spec_len()
                    &&& n <= old(self).rem().len()
                    &&& (n == 0 <==> (old(buf).spec_len() == 0 || old(self).rem().len() == 0))
                    &&& final(self).rem() == old(self).rem().skip(n as int)
                    &&& final(buf).buf() == splice(
                        old(buf).buf(),
                        old(buf).spec_start(),
                        old(self).rem().take(n as int),
                    )
                },
                Ok(Async::NotReady) => {
                    &&& !old(self).always_ready()
                    &&& final(self).rem() == old(self).rem()
                    &&& final(buf).buf() == old(buf).buf()
                },
                Err(e) => {
                    &&& e.kind == ErrorKind::Other
                    &&& final(self).rem() == old(self).rem()
                    &&& final(buf).buf() == old(buf).buf()
                },
            },
    ;
}

/// A non-blocking byte sink.
///
/// The view `written()` is the sequence of bytes the sink has accepted so
/// far; `spare()` is how many more it can take.  A single `write` appends a
/// prefix of the window's active region; accepting zero bytes from a
/// non-empty window means the sink is full.
pub trait AsyncWrite: Sized {
    /// The bytes this sink has accepted so far.
    spec fn written(&self) -> Seq<u8>;

    /// How many more bytes this sink can accept.
    spec fn spare(&self) -> nat;

    /// Whether this sink never reports "would block".
    spec fn always_ready(&self) -> bool;

    /// Attempts exactly one write of the front of `buf`'s active region.
    fn write(&mut self, buf: &Window) -> (r: Result<Async<usize>, IoError>)
        requires
            buf.wf(),
        ensures
            final(self).always_ready() == old(self).always_ready(),
            match r {
                Ok(Async::Ready(n)) => {
                    &&& n <= buf.spec_len()
                    &&& n <= old(self).spare()
                    &&& (n == 0 <==> (buf.spec_len() == 0 || old(self).spare() == 0))
                    &&& final(self).written() == old(self).written() + buf.active().take(n as int)
                    &&& final(self).spare() == old(self).spare() - n
                },
                Ok(Async::NotReady) => {
                    &&& !old(self).always_ready()
                    &&& final(self).written() == old(self).written()
                    &&& final(self).spare() == old(self).spare()
                },
                Err(e) => {
                    &&& e.kind == ErrorKind::Other
                    &&& final(self).written() == old(self).written()
                    &&& final(self).spare() == old(self).spare()
                },
            },
    ;

    /// Attempts to flush any internal buffer through to the destination.
    fn flush(&mut self) -> (r: Result<Async<()>, IoError>)
        ensures
            final(self).always_ready() == old(self).always_ready(),
            final(self).written() == old(self).written(),
            final(self).spare() == old(self).spare(),
            match r {
                Ok(Async::Ready(_)) => true,
                Ok(Async::NotReady) => !old(self).always_ready(),
                Err(e) => e.kind == ErrorKind::Other,
            },
    ;
}

} // verus!
