//! Fixed-width byte-order codecs.
//!
//! Every fixed-width numeric pattern decodes and encodes through these
//! functions.  The specification is little-endian place value: a sequence of
//! `n` bytes denotes `b[0] + 256 * (b[1] + 256 * (...))`; big-endian order is
//! the same value read from the reversed sequence.

use vstd::prelude::*;
use vstd::arithmetic::power::pow;

verus! {

/// The value denoted by a little-endian byte sequence.
pub open spec fn le_value(s: Seq<u8>) -> int
    decreases s.len(),
{
    if s.len() == 0 {
        0
    } else {
        s[0] + 256 * le_value(s.skip(1))
    }
}

/// The value denoted by a big-endian byte sequence.
pub open spec fn be_value(s: Seq<u8>) -> int {
    le_value(s.reverse())
}

/// The little-endian encoding of `v` in `n` bytes (`v` taken modulo `256^n`).
pub open spec fn le_bytes(v: int, n: nat) -> Seq<u8>
    decreases n,
{
    if n == 0 {
        Seq::empty()
    } else {
        seq![(v % 256) as u8] + le_bytes(v / 256, (n - 1) as nat)
    }
}

/// The big-endian encoding of `v` in `n` bytes.
pub open spec fn be_bytes(v: int, n: nat) -> Seq<u8> {
    le_bytes(v, n).reverse()
}

/// One unfolding of `pow(256, n)` for positive `n`.
proof fn lemma_pow_unfold(n: nat)
    requires
        n > 0,
    ensures
        pow(256, n) == 256 * pow(256, (n - 1) as nat),
{
    vstd::arithmetic::power::lemma_pow1(256);
    vstd::arithmetic::power::lemma_pow_adds(256, 1, (n - 1) as nat);
}

/// `le_bytes` produces exactly `n` bytes.
pub proof fn lemma_le_bytes_len(v: int, n: nat)
    ensures
        le_bytes(v, n).len() == n,
    decreases n,
{
    if n > 0 {
        lemma_le_bytes_len(v / 256, (n - 1) as nat);
    }
}

/// A value below `256^n` survives a round trip through its `n`-byte
/// little-endian encoding.
pub proof fn lemma_le_round_trip(v: int, n: nat)
    requires
        0 <= v < pow(256, n),
    ensures
        le_value(le_bytes(v, n)) == v,
    decreases n,
{
    if n == 0 {
        vstd::arithmetic::power::lemma_pow0(256);
    } else {
        let s = le_bytes(v, n);
        lemma_le_bytes_len(v, n);
        lemma_pow_unfold(n);
        lemma_le_round_trip(v / 256, (n - 1) as nat);
        assert(s.skip(1) =~= le_bytes(v / 256, (n - 1) as nat));
        assert(le_value(s) == v % 256 + 256 * (v / 256));
        assert(v % 256 + 256 * (v / 256) == v) by (nonlinear_arith);
    }
}

/// Any `n`-byte sequence denotes a value in `[0, 256^n)`.
pub proof fn lemma_le_value_bound(s: Seq<u8>)
    ensures
        0 <= le_value(s) < pow(256, s.len()),
    decreases s.len(),
{
    if s.len() == 0 {
        vstd::arithmetic::power::lemma_pow0(256);
    } else {
        lemma_le_value_bound(s.skip(1));
        lemma_pow_unfold(s.len());
        assert(s[0] + 256 * le_value(s.skip(1)) < 256 * pow(256, (s.len() - 1) as nat))
            by (nonlinear_arith)
            requires
                s[0] < 256,
                0 <= le_value(s.skip(1)) <= pow(256, (s.len() - 1) as nat) - 1,
        ;
    }
}

/// A byte sequence survives a round trip through decode then encode.
pub proof fn lemma_le_bytes_of_value(s: Seq<u8>)
    ensures
        le_bytes(le_value(s), s.len()) == s,
    decreases s.len(),
{
    if s.len() == 0 {
        assert(le_bytes(le_value(s), s.len()) =~= s);
    } else {
        let v = le_value(s);
        lemma_le_value_bound(s.skip(1));
        assert(v == s[0] + 256 * le_value(s.skip(1)));
        assert(v % 256 == s[0] && v / 256 == le_value(s.skip(1))) by (nonlinear_arith)
            requires
                v == s[0] + 256 * le_value(s.skip(1)),
                0 <= s[0] < 256,
                0 <= le_value(s.skip(1)),
        ;
        lemma_le_bytes_of_value(s.skip(1));
        assert(le_bytes(v, s.len()) =~= s);
    }
}


/// `be_value` grows by one low byte when a byte is appended.
pub proof fn lemma_be_value_push(s: Seq<u8>, x: u8)
    ensures
        be_value(s.push(x)) == 256 * be_value(s) + x,
{
    assert(s.push(x).reverse() =~= seq![x] + s.reverse());
    assert(le_value(seq![x] + s.reverse()) == x + 256 * le_value((seq![x] + s.reverse()).skip(1)));
    assert((seq![x] + s.reverse()).skip(1) =~= s.reverse());
}

/// Any byte sequence denotes a big-endian value in `[0, 256^len)`.
pub proof fn lemma_be_value_bound(s: Seq<u8>)
    ensures
        0 <= be_value(s) < pow(256, s.len()),
{
    lemma_le_value_bound(s.reverse());
}

/// A value below `256^n` survives a round trip through its `n`-byte
/// big-endian encoding.
pub proof fn lemma_be_round_trip(v: int, n: nat)
    requires
        0 <= v < pow(256, n),
    ensures
        be_value(be_bytes(v, n)) == v,
{
    assert(le_bytes(v, n).reverse().reverse() =~= le_bytes(v, n));
    lemma_le_round_trip(v, n);
}

/// A byte sequence survives a round trip through big-endian decode then
/// encode.
pub proof fn lemma_be_bytes_of_value(s: Seq<u8>)
    ensures
        be_bytes(be_value(s), s.len()) == s,
{
    lemma_le_bytes_of_value(s.reverse());
    assert(s.reverse().reverse() =~= s);
}

/// Decodes a big-endian byte sequence into an unsigned integer.
pub fn decode_be(bytes: &Vec<u8>) -> (r: u64)
    requires
        bytes@.len() <= 8,
    ensures
        r == be_value(bytes@),
{
    let n = bytes.len();
    let mut acc: u64 = 0;
    let mut i: usize = 0;
    proof {
        assert(bytes@.take(0) =~= Seq::<u8>::empty());
        lemma_pow_le_u64(n as nat);
    }
    while i < n
        invariant
            i <= n,
            n == bytes@.len() <= 8,
            acc == be_value(bytes@.take(i as int)),
            pow(256, n as nat) <= u64::MAX + 1,
        decreases n - i,
    {
        proof {
            lemma_be_value_bound(bytes@.take(i as int));
            lemma_be_value_push(bytes@.take(i as int), bytes@[i as int]);
            assert(bytes@.take(i as int).push(bytes@[i as int]) =~= bytes@.take(i + 1));
            vstd::arithmetic::power::lemma_pow_increases(256, (i + 1) as nat, n as nat);
            lemma_pow_unfold((i + 1) as nat);
        }
        acc = acc * 256 + (bytes[i] as u64);
        i = i + 1;
    }
    proof {
        assert(bytes@.take(n as int) =~= bytes@);
    }
    acc
}

/// Decodes a little-endian byte sequence into an unsigned integer.
pub fn decode_le(bytes: &Vec<u8>) -> (r: u64)
    requires
        bytes@.len() <= 8,
    ensures
        r == le_value(bytes@),
{
    let n = bytes.len();
    let mut acc: u64 = 0;
    let mut i: usize = n;
    proof {
        assert(bytes@.skip(n as int) =~= Seq::<u8>::empty());
        lemma_pow_le_u64(n as nat);
    }
    while i > 0
        invariant
            i <= n,
            n == bytes@.len() <= 8,
            acc == le_value(bytes@.skip(i as int)),
            pow(256, n as nat) <= u64::MAX + 1,
        decreases i,
    {
        proof {
            lemma_le_value_bound(bytes@.skip(i as int));
            assert(bytes@.skip(i - 1).skip(1) =~= bytes@.skip(i as int));
            assert(le_value(bytes@.skip(i - 1)) == bytes@[i - 1] + 256 * le_value(
                bytes@.skip(i as int),
            ));
            vstd::arithmetic::power::lemma_pow_increases(256, (n - i + 1) as nat, n as nat);
            lemma_pow_unfold((n - i + 1) as nat);
            lemma_le_value_bound(bytes@.skip(i - 1));
        }
        acc = acc * 256 + (bytes[i - 1] as u64);
        proof {
            assert(acc == le_value(bytes@.skip(i - 1)));
        }
        i = i - 1;
    }
    proof {
        assert(bytes@.skip(0) =~= bytes@);
    }
    acc
}

/// Encodes the low `n` bytes of `v` in little-endian order.
pub fn encode_le(v: u64, n: usize) -> (r: Vec<u8>)
    ensures
        r@ == le_bytes(v as int, n as nat),
{
    let mut out: Vec<u8> = Vec::new();
    let mut cur = v;
    let mut i: usize = 0;
    while i < n
        invariant
            i <= n,
            out@.len() == i,
            out@ + le_bytes(cur as int, (n - i) as nat) == le_bytes(v as int, n as nat),
        decreases n - i,
    {
        let ghost prev = out@;
        let ghost pcur = cur as int;
        let b = (cur % 256) as u8;
        out.push(b);
        cur = cur / 256;
        i = i + 1;
        proof {
            assert(le_bytes(pcur, (n - i + 1) as nat) == seq![(pcur % 256) as u8] + le_bytes(
                pcur / 256,
                (n - i) as nat,
            ));
            assert(prev.push(b) + le_bytes(cur as int, (n - i) as nat) =~= prev + le_bytes(
                pcur,
                (n - i + 1) as nat,
            ));
        }
    }
    proof {
        lemma_le_bytes_len(cur as int, 0);
        assert(out@ + le_bytes(cur as int, 0) =~= out@);
    }
    out
}

/// Encodes the low `n` bytes of `v` in big-endian order.
pub fn encode_be(v: u64, n: usize) -> (r: Vec<u8>)
    ensures
        r@ == be_bytes(v as int, n as nat),
{
    let le = encode_le(v, n);
    let mut out: Vec<u8> = Vec::new();
    let mut i: usize = le.len();
    while i > 0
        invariant
            i <= le@.len(),
            out@ == le@.skip(i as int).reverse(),
        decreases i,
    {
        proof {
            assert(le@.skip(i - 1).reverse() =~= le@.skip(i as int).reverse().push(le@[i - 1]));
        }
        let b = le[i - 1];
        out.push(b);
        i = i - 1;
    }
    proof {
        assert(le@.skip(0) =~= le@);
    }
    out
}

/// `pow(256, n)` fits in a `u64` plus one for `n` up to 8.
pub proof fn lemma_pow_le_u64(n: nat)
    requires
        n <= 8,
    ensures
        pow(256, n) <= u64::MAX + 1,
{
    vstd::arithmetic::power::lemma_pow_increases(256, n, 8);
    assert(pow(256, 8) == 0x1_0000_0000_0000_0000) by {
        vstd::arithmetic::power::lemma_pow0(256);
        lemma_pow_unfold(1);
        lemma_pow_unfold(2);
        lemma_pow_unfold(3);
        lemma_pow_unfold(4);
        lemma_pow_unfold(5);
        lemma_pow_unfold(6);
        lemma_pow_unfold(7);
        lemma_pow_unfold(8);
    }
}

/// The signed reading of an unsigned `8 * n`-bit value: two's complement.
pub open spec fn signed(v: int, n: nat) -> int {
    if v < pow(256, n) / 2 {
        v
    } else {
        v - pow(256, n)
    }
}

/// The unsigned `8 * n`-bit carrier of a signed value: two's complement.
pub open spec fn unsigned(v: int, n: nat) -> int {
    if v >= 0 {
        v
    } else {
        v + pow(256, n)
    }
}

/// `signed` undoes `unsigned` on every value a signed `8 * n`-bit integer
/// can take.
pub proof fn lemma_signed_unsigned(v: int, n: nat)
    requires
        n >= 1,
        -(pow(256, n) / 2) <= v < pow(256, n) / 2,
    ensures
        signed(unsigned(v, n), n) == v,
        0 <= unsigned(v, n) < pow(256, n),
{
    vstd::arithmetic::power::lemma_pow_positive(256, n);
}


/// Concrete values of `pow(256, n)` for widths up to eight bytes.
pub proof fn lemma_pow256_values()
    ensures
        pow(256, 1) == 0x100,
        pow(256, 2) == 0x1_0000,
        pow(256, 3) == 0x100_0000,
        pow(256, 4) == 0x1_0000_0000,
        pow(256, 5) == 0x100_0000_0000,
        pow(256, 6) == 0x1_0000_0000_0000,
        pow(256, 7) == 0x100_0000_0000_0000,
        pow(256, 8) == 0x1_0000_0000_0000_0000,
{
    vstd::arithmetic::power::lemma_pow0(256);
    lemma_pow_unfold(1);
    lemma_pow_unfold(2);
    lemma_pow_unfold(3);
    lemma_pow_unfold(4);
    lemma_pow_unfold(5);
    lemma_pow_unfold(6);
    lemma_pow_unfold(7);
    lemma_pow_unfold(8);
}

/// `pow(256, n)` as a machine word, for widths below eight bytes.
pub fn pow256(n: usize) -> (r: u64)
    requires
        1 <= n <= 7,
    ensures
        r == pow(256, n as nat),
{
    proof {
        lemma_pow256_values();
    }
    if n == 1 {
        0x100
    } else if n == 2 {
        0x1_0000
    } else if n == 3 {
        0x100_0000
    } else if n == 4 {
        0x1_0000_0000
    } else if n == 5 {
        0x100_0000_0000
    } else if n == 6 {
        0x1_0000_0000_0000
    } else {
        0x100_0000_0000_0000
    }
}

/// A fixed-width integer type: it assigns a mathematical value to the raw
/// unsigned word read from `n` bytes (two's complement for the signed
/// types), and converts the word into itself.
pub trait Fixnum: Sized {
    /// The encoded byte counts this value type carries.
    spec fn fits(n: nat) -> bool;

    /// The value this type assigns to raw word `v` read from `n` bytes.
    spec fn decode_spec(v: int, n: nat) -> int;

    /// The mathematical value of this fixnum.
    spec fn as_int(self) -> int;

    /// Converts a raw word read from `nbytes` bytes into the value.
    fn from_raw(x: u64, nbytes: usize) -> (r: Self)
        requires
            Self::fits(nbytes as nat),
            (x as int) < pow(256, nbytes as nat),
        ensures
            r.as_int() == Self::decode_spec(x as int, nbytes as nat),
    ;
}

impl Fixnum for u8 {
    open spec fn fits(n: nat) -> bool {
        n == 1
    }

    open spec fn decode_spec(v: int, n: nat) -> int {
        v
    }

    open spec fn as_int(self) -> int {
        self as int
    }

    fn from_raw(x: u64, nbytes: usize) -> (r: Self) {
        proof {
            lemma_pow256_values();
        }
        x as u8
    }
}

impl Fixnum for u16 {
    open spec fn fits(n: nat) -> bool {
        n == 2
    }

    open spec fn decode_spec(v: int, n: nat) -> int {
        v
    }

    open spec fn as_int(self) -> int {
        self as int
    }

    fn from_raw(x: u64, nbytes: usize) -> (r: Self) {
        proof {
            lemma_pow256_values();
        }
        x as u16
    }
}

impl Fixnum for u32 {
    open spec fn fits(n: nat) -> bool {
        n == 3 || n == 4
    }

    open spec fn decode_spec(v: int, n: nat) -> int {
        v
    }

    open spec fn as_int(self) -> int {
        self as int
    }

    fn from_raw(x: u64, nbytes: usize) -> (r: Self) {
        proof {
            lemma_pow256_values();
            vstd::arithmetic::power::lemma_pow_increases(256, nbytes as nat, 4);
        }
        x as u32
    }
}

impl Fixnum for u64 {
    open spec fn fits(n: nat) -> bool {
        5 <= n <= 8
    }

    open spec fn decode_spec(v: int, n: nat) -> int {
        v
    }

    open spec fn as_int(self) -> int {
        self as int
    }

    fn from_raw(x: u64, nbytes: usize) -> (r: Self) {
        x
    }
}

impl Fixnum for i8 {
    open spec fn fits(n: nat) -> bool {
        n == 1
    }

    open spec fn decode_spec(v: int, n: nat) -> int {
        signed(v, n)
    }

    open spec fn as_int(self) -> int {
        self as int
    }

    fn from_raw(x: u64, nbytes: usize) -> (r: Self) {
        proof {
            lemma_pow256_values();
        }
        let t = x as i64;
        if t >= 0x80 {
            (t - 0x100) as i8
        } else {
            t as i8
        }
    }
}

impl Fixnum for i16 {
    open spec fn fits(n: nat) -> bool {
        n == 2
    }

    open spec fn decode_spec(v: int, n: nat) -> int {
        signed(v, n)
    }

    open spec fn as_int(self) -> int {
        self as int
    }

    fn from_raw(x: u64, nbytes: usize) -> (r: Self) {
        proof {
            lemma_pow256_values();
        }
        let t = x as i64;
        if t >= 0x8000 {
            (t - 0x1_0000) as i16
        } else {
            t as i16
        }
    }
}

impl Fixnum for i32 {
    open spec fn fits(n: nat) -> bool {
        n == 3 || n == 4
    }

    open spec fn decode_spec(v: int, n: nat) -> int {
        signed(v, n)
    }

    open spec fn as_int(self) -> int {
        self as int
    }

    fn from_raw(x: u64, nbytes: usize) -> (r: Self) {
        proof {
            lemma_pow256_values();
        }
        let t = x as i64;
        let full = pow256(nbytes) as i64;
        if t >= full / 2 {
            (t - full) as i32
        } else {
            t as i32
        }
    }
}

impl Fixnum for i64 {
    open spec fn fits(n: nat) -> bool {
        5 <= n <= 8
    }

    open spec fn decode_spec(v: int, n: nat) -> int {
        signed(v, n)
    }

    open spec fn as_int(self) -> int {
        self as int
    }

    fn from_raw(x: u64, nbytes: usize) -> (r: Self) {
        proof {
            lemma_pow256_values();
        }
        if nbytes == 8 {
            if x >= 0x8000_0000_0000_0000 {
                -((u64::MAX - x) as i64) - 1
            } else {
                x as i64
            }
        } else {
            let t = x as i64;
            let full = pow256(nbytes) as i64;
            if t >= full / 2 {
                t - full
            } else {
                t
            }
        }
    }
}

/// `le_bytes` depends only on the value modulo `256^n`.
pub proof fn lemma_le_bytes_mod(a: int, b: int, n: nat)
    requires
        (a - b) % pow(256, n) == 0,
    ensures
        le_bytes(a, n) == le_bytes(b, n),
    decreases n,
{
    if n == 0 {
        assert(le_bytes(a, 0) =~= le_bytes(b, 0));
    } else {
        lemma_pow_unfold(n);
        vstd::arithmetic::power::lemma_pow_positive(256, (n - 1) as nat);
        vstd::arithmetic::power::lemma_pow_positive(256, n);
        let q = (a - b) / pow(256, n);
        vstd::arithmetic::div_mod::lemma_fundamental_div_mod(a - b, pow(256, n));
        assert(a - b == pow(256, n) * q);
        assert(a - b == 256 * (pow(256, (n - 1) as nat) * q)) by (nonlinear_arith)
            requires
                a - b == pow(256, n) * q,
                pow(256, n) == 256 * pow(256, (n - 1) as nat),
        ;
        let d = pow(256, (n - 1) as nat) * q;
        assert(a == b + 256 * d);
        assert(a % 256 == b % 256 && a / 256 == b / 256 + d) by (nonlinear_arith)
            requires
                a == b + 256 * d,
        ;
        assert((a / 256 - b / 256) % pow(256, (n - 1) as nat) == 0) by {
            assert(a / 256 - b / 256 == pow(256, (n - 1) as nat) * q);
            vstd::arithmetic::div_mod::lemma_mod_multiples_basic(
                q,
                pow(256, (n - 1) as nat),
            );
        }
        lemma_le_bytes_mod(a / 256, b / 256, (n - 1) as nat);
        assert(le_bytes(a, n) =~= le_bytes(b, n));
    }
}

/// A difference that is a multiple of `256^8` is a multiple of `256^n` for
/// any smaller width.
pub proof fn lemma_mod_width(a: int, n: nat)
    requires
        n <= 8,
        a % pow(256, 8) == 0,
    ensures
        a % pow(256, n) == 0,
{
    vstd::arithmetic::power::lemma_pow_positive(256, n);
    vstd::arithmetic::power::lemma_pow_positive(256, (8 - n) as nat);
    vstd::arithmetic::power::lemma_pow_adds(256, n, (8 - n) as nat);
    vstd::arithmetic::power::lemma_pow_positive(256, 8);
    let q = a / pow(256, 8);
    vstd::arithmetic::div_mod::lemma_fundamental_div_mod(a, pow(256, 8));
    assert(a == pow(256, n) * (pow(256, (8 - n) as nat) * q)) by (nonlinear_arith)
        requires
            a == pow(256, 8) * q,
            pow(256, 8) == pow(256, n) * pow(256, (8 - n) as nat),
    ;
    vstd::arithmetic::div_mod::lemma_mod_multiples_basic(
        pow(256, (8 - n) as nat) * q,
        pow(256, n),
    );
    assert(pow(256, n) * (pow(256, (8 - n) as nat) * q) == (pow(256, (8 - n) as nat) * q) * pow(
        256,
        n,
    )) by (nonlinear_arith);
}

/// The unsigned 64-bit word carrying a signed value: two's complement.
pub fn signed_carrier(v: i64) -> (r: u64)
    ensures
        (r as int - v as int) % pow(256, 8) == 0,
{
    proof {
        lemma_pow256_values();
    }
    if v >= 0 {
        let r = v as u64;
        proof {
            vstd::arithmetic::div_mod::lemma_mod_multiples_basic(0, pow(256, 8));
        }
        r
    } else {
        let r = u64::MAX - ((-(v + 1)) as u64);
        proof {
            assert(r as int - v as int == pow(256, 8));
            vstd::arithmetic::div_mod::lemma_mod_multiples_basic(1, pow(256, 8));
        }
        r
    }
}

/// Encodes the low `n` bytes of a signed value in little-endian order:
/// two's complement.
pub fn encode_le_signed(v: i64, n: usize) -> (r: Vec<u8>)
    requires
        n <= 8,
    ensures
        r@ == le_bytes(v as int, n as nat),
{
    let u = signed_carrier(v);
    let r = encode_le(u, n);
    proof {
        lemma_mod_width(u as int - v as int, n as nat);
        lemma_le_bytes_mod(u as int, v as int, n as nat);
    }
    r
}

/// Encodes the low `n` bytes of a signed value in big-endian order: two's
/// complement.
pub fn encode_be_signed(v: i64, n: usize) -> (r: Vec<u8>)
    requires
        n <= 8,
    ensures
        r@ == be_bytes(v as int, n as nat),
{
    let u = signed_carrier(v);
    let r = encode_be(u, n);
    proof {
        lemma_mod_width(u as int - v as int, n as nat);
        lemma_le_bytes_mod(u as int, v as int, n as nat);
    }
    r
}

} // verus!
