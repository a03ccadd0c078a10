//! Patterns specific to reading operations.

use vstd::prelude::*;
use crate::error::IoError;
use crate::pattern::{Endian, Pattern};

verus! {

/// A pattern associated to 8-bit unsigned integers.
#[derive(Debug, Clone, Copy)]
pub struct U8;

impl Pattern for U8 {
    type Value = u8;
}

/// A pattern associated to 16-bit unsigned integers.
#[derive(Debug, Clone, Copy)]
pub struct U16;

impl Pattern for U16 {
    type Value = u16;
}

/// A pattern associated to 24-bit unsigned integers.
#[derive(Debug, Clone, Copy)]
pub struct U24;

impl Pattern for U24 {
    type Value = u32;
}

/// A pattern associated to 32-bit unsigned integers.
#[derive(Debug, Clone, Copy)]
pub struct U32;

impl Pattern for U32 {
    type Value = u32;
}

/// A pattern associated to 40-bit unsigned integers.
#[derive(Debug, Clone, Copy)]
pub struct U40;

impl Pattern for U40 {
    type Value = u64;
}

/// A pattern associated to 48-bit unsigned integers.
#[derive(Debug, Clone, Copy)]
pub struct U48;

impl Pattern for U48 {
    type Value = u64;
}

/// A pattern associated to 56-bit unsigned integers.
#[derive(Debug, Clone, Copy)]
pub struct U56;

impl Pattern for U56 {
    type Value = u64;
}

/// A pattern associated to 64-bit unsigned integers.
#[derive(Debug, Clone, Copy)]
pub struct U64;

impl Pattern for U64 {
    type Value = u64;
}

/// A pattern associated to 8-bit signed integers.
#[derive(Debug, Clone, Copy)]
pub struct I8;

impl Pattern for I8 {
    type Value = i8;
}

/// A pattern associated to 16-bit signed integers.
#[derive(Debug, Clone, Copy)]
pub struct I16;

impl Pattern for I16 {
    type Value = i16;
}

/// A pattern associated to 24-bit signed integers.
#[derive(Debug, Clone, Copy)]
pub struct I24;

impl Pattern for I24 {
    type Value = i32;
}

/// A pattern associated to 32-bit signed integers.
#[derive(Debug, Clone, Copy)]
pub struct I32;

impl Pattern for I32 {
    type Value = i32;
}

/// A pattern associated to 40-bit signed integers.
#[derive(Debug, Clone, Copy)]
pub struct I40;

impl Pattern for I40 {
    type Value = i64;
}

/// A pattern associated to 48-bit signed integers.
#[derive(Debug, Clone, Copy)]
pub struct I48;

impl Pattern for I48 {
    type Value = i64;
}

/// A pattern associated to 56-bit signed integers.
#[derive(Debug, Clone, Copy)]
pub struct I56;

impl Pattern for I56 {
    type Value = i64;
}

/// A pattern associated to 64-bit signed integers.
#[derive(Debug, Clone, Copy)]
pub struct I64;

impl Pattern for I64 {
    type Value = i64;
}

impl Endian for U16 {

}

impl Endian for U24 {

}

impl Endian for U32 {

}

impl Endian for U40 {

}

impl Endian for U48 {

}

impl Endian for U56 {

}

impl Endian for U64 {

}

impl Endian for I16 {

}

impl Endian for I24 {

}

impl Endian for I32 {

}

impl Endian for I40 {

}

impl Endian for I48 {

}

impl Endian for I56 {

}

impl Endian for I64 {

}

/// A pattern which indicates the end of the stream: it yields `Ok(())` on an
/// exhausted stream and `Err(first_byte)` where data remains.
#[derive(Debug, Clone, Copy)]
pub struct Eos;

impl Pattern for Eos {
    type Value = Result<(), u8>;
}

/// A pattern which indicates a line string.
///
/// A line is ended with a newline character; the final line ending is
/// optional.
#[derive(Debug, Clone, Copy)]
pub struct Line;

impl Pattern for Line {
    type Value = Vec<u8>;
}

/// A pattern which represents all bytes remaining in a stream.
#[derive(Debug, Clone, Copy)]
pub struct All;

impl Pattern for All {
    type Value = Vec<u8>;
}

/// A pattern which represents a length-prefixed byte string: the wrapped
/// pattern decodes the length, then exactly that many bytes are read.
#[derive(Debug, Clone, Copy)]
pub struct LengthPrefixedBytes<P>(pub P);

/// A pattern which represents a UTF-8 string: the wrapped pattern produces
/// the bytes, which must decode as UTF-8.
#[derive(Debug, Clone, Copy)]
pub struct Utf8<P>(pub P);

impl<P> Pattern for Utf8<P> where P: Pattern<Value = Vec<u8>> {
    type Value = String;
}

/// A pattern which continues reading until the predicate is satisfied.
///
/// The predicate is called after every partial transfer with the bytes read
/// so far and an end-of-stream flag; it stops the scan by returning a value,
/// keeps it going with `None`, or fails it with an error.
pub struct Until<F, T> {
    pred: F,
    min_buffer_size: usize,
    max_buffer_size: usize,
    value: core::marker::PhantomData<T>,
}

impl<F, T> Until<F, T> {
    /// The caller-supplied predicate.
    pub closed spec fn spec_pred(self) -> F {
        self.pred
    }

    /// The chunk size of each read attempt.
    pub closed spec fn spec_min_buffer_size(self) -> usize {
        self.min_buffer_size
    }

    /// The largest total byte count the scan may read.
    pub closed spec fn spec_max_buffer_size(self) -> usize {
        self.max_buffer_size
    }

    /// Takes the pattern apart.
    pub fn unwrap(self) -> (r: (F, usize, usize))
        ensures
            r.0 == self.spec_pred(),
            r.1 == self.spec_min_buffer_size(),
            r.2 == self.spec_max_buffer_size(),
    {
        (self.pred, self.min_buffer_size, self.max_buffer_size)
    }

    /// Sets the minimum (i.e. per-attempt) buffer size.
    pub fn min_buffer_size(self, size: usize) -> (r: Self)
        requires
            size > 0,
        ensures
            r.spec_pred() == self.spec_pred(),
            r.spec_min_buffer_size() == size,
            r.spec_max_buffer_size() == self.spec_max_buffer_size(),
    {
        Until {
            pred: self.pred,
            min_buffer_size: size,
            max_buffer_size: self.max_buffer_size,
            value: core::marker::PhantomData,
        }
    }

    /// Sets the maximum buffer size allowed to read.
    pub fn max_buffer_size(self, size: usize) -> (r: Self)
        requires
            size >= self.spec_min_buffer_size(),
        ensures
            r.spec_pred() == self.spec_pred(),
            r.spec_min_buffer_size() == self.spec_min_buffer_size(),
            r.spec_max_buffer_size() == size,
    {
        Until {
            pred: self.pred,
            min_buffer_size: self.min_buffer_size,
            max_buffer_size: size,
            value: core::marker::PhantomData,
        }
    }
}

impl<F, T> Pattern for Until<F, T> where F: Fn(&Vec<u8>, bool) -> Result<Option<T>, IoError> {
    type Value = (Vec<u8>, T);
}

/// Makes an `Until` pattern which continues reading until `f` returns
/// `Ok(Some(..))` or `Err(..)`.
///
/// `f` is called with the current read buffer and an end-of-stream flag.
/// If the stream ends and `f` still returns `Ok(None)`, the scan fails with
/// an unexpected end of stream; if the configured maximum buffer size is
/// reached first, it fails with a buffer limit error.
pub fn until<F, T>(f: F) -> (r: Until<F, T>)
    ensures
        r.spec_pred() == f,
        r.spec_min_buffer_size() == 1024,
        r.spec_max_buffer_size() == 10485760,
{
    Until {
        pred: f,
        min_buffer_size: 1024,
        max_buffer_size: 10485760,
        value: core::marker::PhantomData,
    }
}

} // verus!
