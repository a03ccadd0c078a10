//! Matching the fixed-width numeric read patterns against a stream: for
//! each width and each byte order, exactly the width's byte count is read
//! and converted.

use vstd::prelude::*;
use crate::codec::Fixnum;
use crate::error::IoError;
use crate::io::read_pattern::{fixnum_matched, read_failed, reader_ready, reader_rem, PatternReader, ReadFixnum};
use crate::io::AsyncRead;
use crate::matcher::async_match::AsyncMatch;
use crate::matcher::MatchOutcome;
use crate::pattern::combinators::{BE, LE};
use crate::pattern::read;

verus! {

broadcast use crate::io::read_pattern::lemma_read_fixnum_admits;

/// Reads an 8-bit unsigned integer in its only byte order.
impl<R: AsyncRead> AsyncMatch<PatternReader<R>> for read::U8 {
    type Future = ReadFixnum<R, u8>;

    open spec fn admits(
        self,
        m: PatternReader<R>,
        o: MatchOutcome<PatternReader<R>, u8, IoError>,
    ) -> bool {
        match o {
            MatchOutcome::Matched(m2, v) => fixnum_matched(
                1,
                true,
                false,
                reader_rem(m),
                reader_ready(m),
                m2,
                v as int,
            ),
            MatchOutcome::Failed(m2, e) => read_failed(1, reader_rem(m), reader_ready(m), m2, e),
        }
    }

    open spec fn pre(self) -> bool {
        true
    }

    fn async_match(self, matcher: PatternReader<R>) -> (f: Self::Future) {
        ReadFixnum::start(matcher, 1, true)
    }
}

/// Reads an 8-bit signed integer in its only byte order.
impl<R: AsyncRead> AsyncMatch<PatternReader<R>> for read::I8 {
    type Future = ReadFixnum<R, i8>;

    open spec fn admits(
        self,
        m: PatternReader<R>,
        o: MatchOutcome<PatternReader<R>, i8, IoError>,
    ) -> bool {
        match o {
            MatchOutcome::Matched(m2, v) => fixnum_matched(
                1,
                true,
                true,
                reader_rem(m),
                reader_ready(m),
                m2,
                v as int,
            ),
            MatchOutcome::Failed(m2, e) => read_failed(1, reader_rem(m), reader_ready(m), m2, e),
        }
    }

    open spec fn pre(self) -> bool {
        true
    }

    fn async_match(self, matcher: PatternReader<R>) -> (f: Self::Future) {
        ReadFixnum::start(matcher, 1, true)
    }
}

/// Reads a 16-bit unsigned integer in big-endian order.
impl<R: AsyncRead> AsyncMatch<PatternReader<R>> for BE<read::U16> {
    type Future = ReadFixnum<R, u16>;

    open spec fn admits(
        self,
        m: PatternReader<R>,
        o: MatchOutcome<PatternReader<R>, u16, IoError>,
    ) -> bool {
        match o {
            MatchOutcome::Matched(m2, v) => fixnum_matched(
                2,
                true,
                false,
                reader_rem(m),
                reader_ready(m),
                m2,
                v as int,
            ),
            MatchOutcome::Failed(m2, e) => read_failed(2, reader_rem(m), reader_ready(m), m2, e),
        }
    }

    open spec fn pre(self) -> bool {
        true
    }

    fn async_match(self, matcher: PatternReader<R>) -> (f: Self::Future) {
        ReadFixnum::start(matcher, 2, true)
    }
}

/// Reads a 16-bit unsigned integer in little-endian order.
impl<R: AsyncRead> AsyncMatch<PatternReader<R>> for LE<read::U16> {
    type Future = ReadFixnum<R, u16>;

    open spec fn admits(
        self,
        m: PatternReader<R>,
        o: MatchOutcome<PatternReader<R>, u16, IoError>,
    ) -> bool {
        match o {
            MatchOutcome::Matched(m2, v) => fixnum_matched(
                2,
                false,
                false,
                reader_rem(m),
                reader_ready(m),
                m2,
                v as int,
            ),
            MatchOutcome::Failed(m2, e) => read_failed(2, reader_rem(m), reader_ready(m), m2, e),
        }
    }

    open spec fn pre(self) -> bool {
        true
    }

    fn async_match(self, matcher: PatternReader<R>) -> (f: Self::Future) {
        ReadFixnum::start(matcher, 2, false)
    }
}

/// Reads a 16-bit signed integer in big-endian order.
impl<R: AsyncRead> AsyncMatch<PatternReader<R>> for BE<read::I16> {
    type Future = ReadFixnum<R, i16>;

    open spec fn admits(
        self,
        m: PatternReader<R>,
        o: MatchOutcome<PatternReader<R>, i16, IoError>,
    ) -> bool {
        match o {
            MatchOutcome::Matched(m2, v) => fixnum_matched(
                2,
                true,
                true,
                reader_rem(m),
                reader_ready(m),
                m2,
                v as int,
            ),
            MatchOutcome::Failed(m2, e) => read_failed(2, reader_rem(m), reader_ready(m), m2, e),
        }
    }

    open spec fn pre(self) -> bool {
        true
    }

    fn async_match(self, matcher: PatternReader<R>) -> (f: Self::Future) {
        ReadFixnum::start(matcher, 2, true)
    }
}

/// Reads a 16-bit signed integer in little-endian order.
impl<R: AsyncRead> AsyncMatch<PatternReader<R>> for LE<read::I16> {
    type Future = ReadFixnum<R, i16>;

    open spec fn admits(
        self,
        m: PatternReader<R>,
        o: MatchOutcome<PatternReader<R>, i16, IoError>,
    ) -> bool {
        match o {
            MatchOutcome::Matched(m2, v) => fixnum_matched(
                2,
                false,
                true,
                reader_rem(m),
                reader_ready(m),
                m2,
                v as int,
            ),
            MatchOutcome::Failed(m2, e) => read_failed(2, reader_rem(m), reader_ready(m), m2, e),
        }
    }

    open spec fn pre(self) -> bool {
        true
    }

    fn async_match(self, matcher: PatternReader<R>) -> (f: Self::Future) {
        ReadFixnum::start(matcher, 2, false)
    }
}

/// Reads a 24-bit unsigned integer in big-endian order.
impl<R: AsyncRead> AsyncMatch<PatternReader<R>> for BE<read::U24> {
    type Future = ReadFixnum<R, u32>;

    open spec fn admits(
        self,
        m: PatternReader<R>,
        o: MatchOutcome<PatternReader<R>, u32, IoError>,
    ) -> bool {
        match o {
            MatchOutcome::Matched(m2, v) => fixnum_matched(
                3,
                true,
                false,
                reader_rem(m),
                reader_ready(m),
                m2,
                v as int,
            ),
            MatchOutcome::Failed(m2, e) => read_failed(3, reader_rem(m), reader_ready(m), m2, e),
        }
    }

    open spec fn pre(self) -> bool {
        true
    }

    fn async_match(self, matcher: PatternReader<R>) -> (f: Self::Future) {
        ReadFixnum::start(matcher, 3, true)
    }
}

/// Reads a 24-bit unsigned integer in little-endian order.
impl<R: AsyncRead> AsyncMatch<PatternReader<R>> for LE<read::U24> {
    type Future = ReadFixnum<R, u32>;

    open spec fn admits(
        self,
        m: PatternReader<R>,
        o: MatchOutcome<PatternReader<R>, u32, IoError>,
    ) -> bool {
        match o {
            MatchOutcome::Matched(m2, v) => fixnum_matched(
                3,
                false,
                false,
                reader_rem(m),
                reader_ready(m),
                m2,
                v as int,
            ),
            MatchOutcome::Failed(m2, e) => read_failed(3, reader_rem(m), reader_ready(m), m2, e),
        }
    }

    open spec fn pre(self) -> bool {
        true
    }

    fn async_match(self, matcher: PatternReader<R>) -> (f: Self::Future) {
        ReadFixnum::start(matcher, 3, false)
    }
}

/// Reads a 24-bit signed integer in big-endian order.
impl<R: AsyncRead> AsyncMatch<PatternReader<R>> for BE<read::I24> {
    type Future = ReadFixnum<R, i32>;

    open spec fn admits(
        self,
        m: PatternReader<R>,
        o: MatchOutcome<PatternReader<R>, i32, IoError>,
    ) -> bool {
        match o {
            MatchOutcome::Matched(m2, v) => fixnum_matched(
                3,
                true,
                true,
                reader_rem(m),
                reader_ready(m),
                m2,
                v as int,
            ),
            MatchOutcome::Failed(m2, e) => read_failed(3, reader_rem(m), reader_ready(m), m2, e),
        }
    }

    open spec fn pre(self) -> bool {
        true
    }

    fn async_match(self, matcher: PatternReader<R>) -> (f: Self::Future) {
        ReadFixnum::start(matcher, 3, true)
    }
}

/// Reads a 24-bit signed integer in little-endian order.
impl<R: AsyncRead> AsyncMatch<PatternReader<R>> for LE<read::I24> {
    type Future = ReadFixnum<R, i32>;

    open spec fn admits(
        self,
        m: PatternReader<R>,
        o: MatchOutcome<PatternReader<R>, i32, IoError>,
    ) -> bool {
        match o {
            MatchOutcome::Matched(m2, v) => fixnum_matched(
                3,
                false,
                true,
                reader_rem(m),
                reader_ready(m),
                m2,
                v as int,
            ),
            MatchOutcome::Failed(m2, e) => read_failed(3, reader_rem(m), reader_ready(m), m2, e),
        }
    }

    open spec fn pre(self) -> bool {
        true
    }

    fn async_match(self, matcher: PatternReader<R>) -> (f: Self::Future) {
        ReadFixnum::start(matcher, 3, false)
    }
}

/// Reads a 32-bit unsigned integer in big-endian order.
impl<R: AsyncRead> AsyncMatch<PatternReader<R>> for BE<read::U32> {
    type Future = ReadFixnum<R, u32>;

    open spec fn admits(
        self,
        m: PatternReader<R>,
        o: MatchOutcome<PatternReader<R>, u32, IoError>,
    ) -> bool {
        match o {
            MatchOutcome::Matched(m2, v) => fixnum_matched(
                4,
                true,
                false,
                reader_rem(m),
                reader_ready(m),
                m2,
                v as int,
            ),
            MatchOutcome::Failed(m2, e) => read_failed(4, reader_rem(m), reader_ready(m), m2, e),
        }
    }

    open spec fn pre(self) -> bool {
        true
    }

    fn async_match(self, matcher: PatternReader<R>) -> (f: Self::Future) {
        ReadFixnum::start(matcher, 4, true)
    }
}

/// Reads a 32-bit unsigned integer in little-endian order.
impl<R: AsyncRead> AsyncMatch<PatternReader<R>> for LE<read::U32> {
    type Future = ReadFixnum<R, u32>;

    open spec fn admits(
        self,
        m: PatternReader<R>,
        o: MatchOutcome<PatternReader<R>, u32, IoError>,
    ) -> bool {
        match o {
            MatchOutcome::Matched(m2, v) => fixnum_matched(
                4,
                false,
                false,
                reader_rem(m),
                reader_ready(m),
                m2,
                v as int,
            ),
            MatchOutcome::Failed(m2, e) => read_failed(4, reader_rem(m), reader_ready(m), m2, e),
        }
    }

    open spec fn pre(self) -> bool {
        true
    }

    fn async_match(self, matcher: PatternReader<R>) -> (f: Self::Future) {
        ReadFixnum::start(matcher, 4, false)
    }
}

/// Reads a 32-bit signed integer in big-endian order.
impl<R: AsyncRead> AsyncMatch<PatternReader<R>> for BE<read::I32> {
    type Future = ReadFixnum<R, i32>;

    open spec fn admits(
        self,
        m: PatternReader<R>,
        o: MatchOutcome<PatternReader<R>, i32, IoError>,
    ) -> bool {
        match o {
            MatchOutcome::Matched(m2, v) => fixnum_matched(
                4,
                true,
                true,
                reader_rem(m),
                reader_ready(m),
                m2,
                v as int,
            ),
            MatchOutcome::Failed(m2, e) => read_failed(4, reader_rem(m), reader_ready(m), m2, e),
        }
    }

    open spec fn pre(self) -> bool {
        true
    }

    fn async_match(self, matcher: PatternReader<R>) -> (f: Self::Future) {
        ReadFixnum::start(matcher, 4, true)
    }
}

/// Reads a 32-bit signed integer in little-endian order.
impl<R: AsyncRead> AsyncMatch<PatternReader<R>> for LE<read::I32> {
    type Future = ReadFixnum<R, i32>;

    open spec fn admits(
        self,
        m: PatternReader<R>,
        o: MatchOutcome<PatternReader<R>, i32, IoError>,
    ) -> bool {
        match o {
            MatchOutcome::Matched(m2, v) => fixnum_matched(
                4,
                false,
                true,
                reader_rem(m),
                reader_ready(m),
                m2,
                v as int,
            ),
            MatchOutcome::Failed(m2, e) => read_failed(4, reader_rem(m), reader_ready(m), m2, e),
        }
    }

    open spec fn pre(self) -> bool {
        true
    }

    fn async_match(self, matcher: PatternReader<R>) -> (f: Self::Future) {
        ReadFixnum::start(matcher, 4, false)
    }
}

/// Reads a 40-bit unsigned integer in big-endian order.
impl<R: AsyncRead> AsyncMatch<PatternReader<R>> for BE<read::U40> {
    type Future = ReadFixnum<R, u64>;

    open spec fn admits(
        self,
        m: PatternReader<R>,
        o: MatchOutcome<PatternReader<R>, u64, IoError>,
    ) -> bool {
        match o {
            MatchOutcome::Matched(m2, v) => fixnum_matched(
                5,
                true,
                false,
                reader_rem(m),
                reader_ready(m),
                m2,
                v as int,
            ),
            MatchOutcome::Failed(m2, e) => read_failed(5, reader_rem(m), reader_ready(m), m2, e),
        }
    }

    open spec fn pre(self) -> bool {
        true
    }

    fn async_match(self, matcher: PatternReader<R>) -> (f: Self::Future) {
        ReadFixnum::start(matcher, 5, true)
    }
}

/// Reads a 40-bit unsigned integer in little-endian order.
impl<R: AsyncRead> AsyncMatch<PatternReader<R>> for LE<read::U40> {
    type Future = ReadFixnum<R, u64>;

    open spec fn admits(
        self,
        m: PatternReader<R>,
        o: MatchOutcome<PatternReader<R>, u64, IoError>,
    ) -> bool {
        match o {
            MatchOutcome::Matched(m2, v) => fixnum_matched(
                5,
                false,
                false,
                reader_rem(m),
                reader_ready(m),
                m2,
                v as int,
            ),
            MatchOutcome::Failed(m2, e) => read_failed(5, reader_rem(m), reader_ready(m), m2, e),
        }
    }

    open spec fn pre(self) -> bool {
        true
    }

    fn async_match(self, matcher: PatternReader<R>) -> (f: Self::Future) {
        ReadFixnum::start(matcher, 5, false)
    }
}

/// Reads a 40-bit signed integer in big-endian order.
impl<R: AsyncRead> AsyncMatch<PatternReader<R>> for BE<read::I40> {
    type Future = ReadFixnum<R, i64>;

    open spec fn admits(
        self,
        m: PatternReader<R>,
        o: MatchOutcome<PatternReader<R>, i64, IoError>,
    ) -> bool {
        match o {
            MatchOutcome::Matched(m2, v) => fixnum_matched(
                5,
                true,
                true,
                reader_rem(m),
                reader_ready(m),
                m2,
                v as int,
            ),
            MatchOutcome::Failed(m2, e) => read_failed(5, reader_rem(m), reader_ready(m), m2, e),
        }
    }

    open spec fn pre(self) -> bool {
        true
    }

    fn async_match(self, matcher: PatternReader<R>) -> (f: Self::Future) {
        ReadFixnum::start(matcher, 5, true)
    }
}

/// Reads a 40-bit signed integer in little-endian order.
impl<R: AsyncRead> AsyncMatch<PatternReader<R>> for LE<read::I40> {
    type Future = ReadFixnum<R, i64>;

    open spec fn admits(
        self,
        m: PatternReader<R>,
        o: MatchOutcome<PatternReader<R>, i64, IoError>,
    ) -> bool {
        match o {
            MatchOutcome::Matched(m2, v) => fixnum_matched(
                5,
                false,
                true,
                reader_rem(m),
                reader_ready(m),
                m2,
                v as int,
            ),
            MatchOutcome::Failed(m2, e) => read_failed(5, reader_rem(m), reader_ready(m), m2, e),
        }
    }

    open spec fn pre(self) -> bool {
        true
    }

    fn async_match(self, matcher: PatternReader<R>) -> (f: Self::Future) {
        ReadFixnum::start(matcher, 5, false)
    }
}

/// Reads a 48-bit unsigned integer in big-endian order.
impl<R: AsyncRead> AsyncMatch<PatternReader<R>> for BE<read::U48> {
    type Future = ReadFixnum<R, u64>;

    open spec fn admits(
        self,
        m: PatternReader<R>,
        o: MatchOutcome<PatternReader<R>, u64, IoError>,
    ) -> bool {
        match o {
            MatchOutcome::Matched(m2, v) => fixnum_matched(
                6,
                true,
                false,
                reader_rem(m),
                reader_ready(m),
                m2,
                v as int,
            ),
            MatchOutcome::Failed(m2, e) => read_failed(6, reader_rem(m), reader_ready(m), m2, e),
        }
    }

    open spec fn pre(self) -> bool {
        true
    }

    fn async_match(self, matcher: PatternReader<R>) -> (f: Self::Future) {
        ReadFixnum::start(matcher, 6, true)
    }
}

/// Reads a 48-bit unsigned integer in little-endian order.
impl<R: AsyncRead> AsyncMatch<PatternReader<R>> for LE<read::U48> {
    type Future = ReadFixnum<R, u64>;

    open spec fn admits(
        self,
        m: PatternReader<R>,
        o: MatchOutcome<PatternReader<R>, u64, IoError>,
    ) -> bool {
        match o {
            MatchOutcome::Matched(m2, v) => fixnum_matched(
                6,
                false,
                false,
                reader_rem(m),
                reader_ready(m),
                m2,
                v as int,
            ),
            MatchOutcome::Failed(m2, e) => read_failed(6, reader_rem(m), reader_ready(m), m2, e),
        }
    }

    open spec fn pre(self) -> bool {
        true
    }

    fn async_match(self, matcher: PatternReader<R>) -> (f: Self::Future) {
        ReadFixnum::start(matcher, 6, false)
    }
}

/// Reads a 48-bit signed integer in big-endian order.
impl<R: AsyncRead> AsyncMatch<PatternReader<R>> for BE<read::I48> {
    type Future = ReadFixnum<R, i64>;

    open spec fn admits(
        self,
        m: PatternReader<R>,
        o: MatchOutcome<PatternReader<R>, i64, IoError>,
    ) -> bool {
        match o {
            MatchOutcome::Matched(m2, v) => fixnum_matched(
                6,
                true,
                true,
                reader_rem(m),
                reader_ready(m),
                m2,
                v as int,
            ),
            MatchOutcome::Failed(m2, e) => read_failed(6, reader_rem(m), reader_ready(m), m2, e),
        }
    }

    open spec fn pre(self) -> bool {
        true
    }

    fn async_match(self, matcher: PatternReader<R>) -> (f: Self::Future) {
        ReadFixnum::start(matcher, 6, true)
    }
}

/// Reads a 48-bit signed integer in little-endian order.
impl<R: AsyncRead> AsyncMatch<PatternReader<R>> for LE<read::I48> {
    type Future = ReadFixnum<R, i64>;

    open spec fn admits(
        self,
        m: PatternReader<R>,
        o: MatchOutcome<PatternReader<R>, i64, IoError>,
    ) -> bool {
        match o {
            MatchOutcome::Matched(m2, v) => fixnum_matched(
                6,
                false,
                true,
                reader_rem(m),
                reader_ready(m),
                m2,
                v as int,
            ),
            MatchOutcome::Failed(m2, e) => read_failed(6, reader_rem(m), reader_ready(m), m2, e),
        }
    }

    open spec fn pre(self) -> bool {
        true
    }

    fn async_match(self, matcher: PatternReader<R>) -> (f: Self::Future) {
        ReadFixnum::start(matcher, 6, false)
    }
}

/// Reads a 56-bit unsigned integer in big-endian order.
impl<R: AsyncRead> AsyncMatch<PatternReader<R>> for BE<read::U56> {
    type Future = ReadFixnum<R, u64>;

    open spec fn admits(
        self,
        m: PatternReader<R>,
        o: MatchOutcome<PatternReader<R>, u64, IoError>,
    ) -> bool {
        match o {
            MatchOutcome::Matched(m2, v) => fixnum_matched(
                7,
                true,
                false,
                reader_rem(m),
                reader_ready(m),
                m2,
                v as int,
            ),
            MatchOutcome::Failed(m2, e) => read_failed(7, reader_rem(m), reader_ready(m), m2, e),
        }
    }

    open spec fn pre(self) -> bool {
        true
    }

    fn async_match(self, matcher: PatternReader<R>) -> (f: Self::Future) {
        ReadFixnum::start(matcher, 7, true)
    }
}

/// Reads a 56-bit unsigned integer in little-endian order.
impl<R: AsyncRead> AsyncMatch<PatternReader<R>> for LE<read::U56> {
    type Future = ReadFixnum<R, u64>;

    open spec fn admits(
        self,
        m: PatternReader<R>,
        o: MatchOutcome<PatternReader<R>, u64, IoError>,
    ) -> bool {
        match o {
            MatchOutcome::Matched(m2, v) => fixnum_matched(
                7,
                false,
                false,
                reader_rem(m),
                reader_ready(m),
                m2,
                v as int,
            ),
            MatchOutcome::Failed(m2, e) => read_failed(7, reader_rem(m), reader_ready(m), m2, e),
        }
    }

    open spec fn pre(self) -> bool {
        true
    }

    fn async_match(self, matcher: PatternReader<R>) -> (f: Self::Future) {
        ReadFixnum::start(matcher, 7, false)
    }
}

/// Reads a 56-bit signed integer in big-endian order.
impl<R: AsyncRead> AsyncMatch<PatternReader<R>> for BE<read::I56> {
    type Future = ReadFixnum<R, i64>;

    open spec fn admits(
        self,
        m: PatternReader<R>,
        o: MatchOutcome<PatternReader<R>, i64, IoError>,
    ) -> bool {
        match o {
            MatchOutcome::Matched(m2, v) => fixnum_matched(
                7,
                true,
                true,
                reader_rem(m),
                reader_ready(m),
                m2,
                v as int,
            ),
            MatchOutcome::Failed(m2, e) => read_failed(7, reader_rem(m), reader_ready(m), m2, e),
        }
    }

    open spec fn pre(self) -> bool {
        true
    }

    fn async_match(self, matcher: PatternReader<R>) -> (f: Self::Future) {
        ReadFixnum::start(matcher, 7, true)
    }
}

/// Reads a 56-bit signed integer in little-endian order.
impl<R: AsyncRead> AsyncMatch<PatternReader<R>> for LE<read::I56> {
    type Future = ReadFixnum<R, i64>;

    open spec fn admits(
        self,
        m: PatternReader<R>,
        o: MatchOutcome<PatternReader<R>, i64, IoError>,
    ) -> bool {
        match o {
            MatchOutcome::Matched(m2, v) => fixnum_matched(
                7,
                false,
                true,
                reader_rem(m),
                reader_ready(m),
                m2,
                v as int,
            ),
            MatchOutcome::Failed(m2, e) => read_failed(7, reader_rem(m), reader_ready(m), m2, e),
        }
    }

    open spec fn pre(self) -> bool {
        true
    }

    fn async_match(self, matcher: PatternReader<R>) -> (f: Self::Future) {
        ReadFixnum::start(matcher, 7, false)
    }
}

/// Reads a 64-bit unsigned integer in big-endian order.
impl<R: AsyncRead> AsyncMatch<PatternReader<R>> for BE<read::U64> {
    type Future = ReadFixnum<R, u64>;

    open spec fn admits(
        self,
        m: PatternReader<R>,
        o: MatchOutcome<PatternReader<R>, u64, IoError>,
    ) -> bool {
        match o {
            MatchOutcome::Matched(m2, v) => fixnum_matched(
                8,
                true,
                false,
                reader_rem(m),
                reader_ready(m),
                m2,
                v as int,
            ),
            MatchOutcome::Failed(m2, e) => read_failed(8, reader_rem(m), reader_ready(m), m2, e),
        }
    }

    open spec fn pre(self) -> bool {
        true
    }

    fn async_match(self, matcher: PatternReader<R>) -> (f: Self::Future) {
        ReadFixnum::start(matcher, 8, true)
    }
}

/// Reads a 64-bit unsigned integer in little-endian order.
impl<R: AsyncRead> AsyncMatch<PatternReader<R>> for LE<read::U64> {
    type Future = ReadFixnum<R, u64>;

    open spec fn admits(
        self,
        m: PatternReader<R>,
        o: MatchOutcome<PatternReader<R>, u64, IoError>,
    ) -> bool {
        match o {
            MatchOutcome::Matched(m2, v) => fixnum_matched(
                8,
                false,
                false,
                reader_rem(m),
                reader_ready(m),
                m2,
                v as int,
            ),
            MatchOutcome::Failed(m2, e) => read_failed(8, reader_rem(m), reader_ready(m), m2, e),
        }
    }

    open spec fn pre(self) -> bool {
        true
    }

    fn async_match(self, matcher: PatternReader<R>) -> (f: Self::Future) {
        ReadFixnum::start(matcher, 8, false)
    }
}

/// Reads a 64-bit signed integer in big-endian order.
impl<R: AsyncRead> AsyncMatch<PatternReader<R>> for BE<read::I64> {
    type Future = ReadFixnum<R, i64>;

    open spec fn admits(
        self,
        m: PatternReader<R>,
        o: MatchOutcome<PatternReader<R>, i64, IoError>,
    ) -> bool {
        match o {
            MatchOutcome::Matched(m2, v) => fixnum_matched(
                8,
                true,
                true,
                reader_rem(m),
                reader_ready(m),
                m2,
                v as int,
            ),
            MatchOutcome::Failed(m2, e) => read_failed(8, reader_rem(m), reader_ready(m), m2, e),
        }
    }

    open spec fn pre(self) -> bool {
        true
    }

    fn async_match(self, matcher: PatternReader<R>) -> (f: Self::Future) {
        ReadFixnum::start(matcher, 8, true)
    }
}

/// Reads a 64-bit signed integer in little-endian order.
impl<R: AsyncRead> AsyncMatch<PatternReader<R>> for LE<read::I64> {
    type Future = ReadFixnum<R, i64>;

    open spec fn admits(
        self,
        m: PatternReader<R>,
        o: MatchOutcome<PatternReader<R>, i64, IoError>,
    ) -> bool {
        match o {
            MatchOutcome::Matched(m2, v) => fixnum_matched(
                8,
                false,
                true,
                reader_rem(m),
                reader_ready(m),
                m2,
                v as int,
            ),
            MatchOutcome::Failed(m2, e) => read_failed(8, reader_rem(m), reader_ready(m), m2, e),
        }
    }

    open spec fn pre(self) -> bool {
        true
    }

    fn async_match(self, matcher: PatternReader<R>) -> (f: Self::Future) {
        ReadFixnum::start(matcher, 8, false)
    }
}

} // verus!
