//! The library's cross-cutting guarantees, stated and proved once.
//!
//! Each law here relates the outcome relations that the pattern contracts
//! are stated in.  The windowed-buffer law lives with the window itself:
//! see [`lemma_skip_skip`](crate::pattern::lemma_skip_skip).

use vstd::prelude::*;
use vstd::arithmetic::power::pow;
use crate::codec::{
    lemma_be_bytes_of_value,
    lemma_be_round_trip,
    lemma_le_bytes_len,
    lemma_le_bytes_mod,
    lemma_le_bytes_of_value,
    lemma_le_round_trip,
    lemma_signed_unsigned,
    signed,
    unsigned,
};
use crate::io::async_read::exact_read_ok;
use crate::io::read_pattern::{
    buf_matched,
    eos_matched,
    fixnum_matched,
    fixnum_value,
    reader_rem,
    PatternReader,
};
use crate::io::write_pattern::fixnum_bytes;
use crate::io::AsyncRead;
use crate::pattern::{win_eq, Window};

verus! {

/// Decoding a byte sequence as a fixed-width number and encoding the number
/// again reproduces the original bytes exactly, for every width up to eight
/// bytes, both byte orders, and both signednesses.
pub proof fn lemma_fixnum_round_trip(be: bool, sgn: bool, s: Seq<u8>)
    requires
        s.len() <= 8,
        sgn ==> s.len() >= 1,
    ensures
        fixnum_bytes(be, fixnum_value(be, sgn, s), s.len()) == s,
{
    let n = s.len();
    if !sgn {
        if be {
            lemma_be_bytes_of_value(s);
        } else {
            lemma_le_bytes_of_value(s);
        }
    } else {
        vstd::arithmetic::power::lemma_pow_positive(256, n);
        if be {
            let raw = crate::codec::be_value(s);
            assert(signed(raw, n) - raw == 0 || signed(raw, n) - raw == -pow(256, n));
            vstd::arithmetic::div_mod::lemma_mod_multiples_basic(-1, pow(256, n));
            vstd::arithmetic::div_mod::lemma_mod_multiples_basic(0, pow(256, n));
            lemma_le_bytes_mod(signed(raw, n), raw, n);
            lemma_be_bytes_of_value(s);
        } else {
            let raw = crate::codec::le_value(s);
            assert(signed(raw, n) - raw == 0 || signed(raw, n) - raw == -pow(256, n));
            vstd::arithmetic::div_mod::lemma_mod_multiples_basic(-1, pow(256, n));
            vstd::arithmetic::div_mod::lemma_mod_multiples_basic(0, pow(256, n));
            lemma_le_bytes_mod(signed(raw, n), raw, n);
            lemma_le_bytes_of_value(s);
        }
    }
}

/// Encoding a fixed-width number and decoding the bytes again reproduces
/// the number, for every value the width can carry.
pub proof fn lemma_fixnum_value_round_trip(be: bool, sgn: bool, v: int, n: nat)
    requires
        1 <= n <= 8,
        if sgn {
            -(pow(256, n) / 2) <= v < pow(256, n) / 2
        } else {
            0 <= v < pow(256, n)
        },
    ensures
        fixnum_value(be, sgn, fixnum_bytes(be, v, n)) == v,
{
    lemma_le_bytes_len(v, n);
    if !sgn {
        if be {
            lemma_be_round_trip(v, n);
        } else {
            lemma_le_round_trip(v, n);
        }
    } else {
        lemma_signed_unsigned(v, n);
        let u = unsigned(v, n);
        vstd::arithmetic::div_mod::lemma_mod_multiples_basic(-1, pow(256, n));
        vstd::arithmetic::div_mod::lemma_mod_multiples_basic(0, pow(256, n));
        assert(v - u == 0 || v - u == -pow(256, n));
        lemma_le_bytes_mod(v, u, n);
        if be {
            lemma_be_round_trip(u, n);
        } else {
            lemma_le_round_trip(u, n);
        }
    }
}

/// A value read by a fixed-width numeric pattern, written back through the
/// matching write pattern, reproduces exactly the bytes that were consumed.
pub proof fn lemma_read_write_round_trip<R: AsyncRead>(
    n: int,
    be: bool,
    sgn: bool,
    rem0: Seq<u8>,
    ready0: bool,
    m2: PatternReader<R>,
    v: int,
)
    requires
        fixnum_matched(n, be, sgn, rem0, ready0, m2, v),
        0 <= n <= 8,
        sgn ==> n >= 1,
    ensures
        fixnum_bytes(be, v, n as nat) == rem0.take(n),
{
    lemma_fixnum_round_trip(be, sgn, rem0.take(n));
}

/// An exact-transfer read is deterministic in the stream's bytes: two runs
/// against streams with the same remainder, over equally-placed windows,
/// fill the buffer identically and leave the same remainder — however the
/// stream chunks its answers.
pub proof fn lemma_exact_read_deterministic<R: AsyncRead, S: AsyncRead>(
    w0a: Window,
    w0b: Window,
    s0: Seq<u8>,
    r2a: R,
    w2a: Window,
    r2b: S,
    w2b: Window,
)
    requires
        exact_read_ok(w0a, s0, r2a, w2a),
        exact_read_ok(w0b, s0, r2b, w2b),
        win_eq(w0a, w0b),
    ensures
        w2a.buf() == w2b.buf(),
        r2a.rem() == r2b.rem(),
{
}

/// A buffer pattern's value is determined by the stream's bytes alone: two
/// successful matches of the same byte count against equal remainders yield
/// equal values and equal leftover streams — slow streams included.
pub proof fn lemma_buf_read_deterministic<R: AsyncRead, S: AsyncRead>(
    n: int,
    rem0: Seq<u8>,
    ready_a: bool,
    ready_b: bool,
    m2a: PatternReader<R>,
    va: Seq<u8>,
    m2b: PatternReader<S>,
    vb: Seq<u8>,
)
    requires
        buf_matched(n, rem0, ready_a, m2a, va),
        buf_matched(n, rem0, ready_b, m2b, vb),
    ensures
        va == vb,
        reader_rem(m2a) == reader_rem(m2b),
{
}

/// The end-of-stream pattern decides exactly: `Ok(())` precisely on an
/// exhausted stream, and otherwise `Err` carrying the next byte, consumed
/// only by being returned.
pub proof fn lemma_eos_decides<R: AsyncRead>(
    rem0: Seq<u8>,
    ready0: bool,
    m2: PatternReader<R>,
    v: Result<(), u8>,
)
    requires
        eos_matched(rem0, ready0, m2, v),
    ensures
        v is Ok <==> rem0.len() == 0,
        v is Ok ==> reader_rem(m2) == rem0,
        v is Err ==> v->Err_0 == rem0[0] && reader_rem(m2) == rem0.skip(1),
{
}

} // verus!
