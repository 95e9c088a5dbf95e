//! Bit-level model of IEEE-754 binary32 and binary64 values.
//!
//! The numeric kernels carry float columns as raw bit patterns (`u32` /
//! `u64`). This module defines, in pure integer arithmetic, everything the
//! kernels need of those patterns: NaN detection, the value ordering of
//! finite and infinite patterns, NaN-propagating `min`/`max` selection, the
//! exact widening of a binary32 pattern to binary64, and the
//! round-to-nearest-even encoding of an integer into either format.

use vstd::prelude::*;

use vstd::arithmetic::div_mod::{
    lemma_fundamental_div_mod, lemma_multiply_divide_lt, lemma_remainder_lower,
    lemma_remainder_upper,
};
use vstd::arithmetic::power2::{
    lemma2_to64, lemma_pow2_adds, lemma_pow2_pos, lemma_pow2_strictly_increases,
    lemma_pow2_unfold, pow2,
};

verus! {

// ---------------------------------------------------------------------------
// Field extraction
// ---------------------------------------------------------------------------
/// Sign bit of a binary32 pattern.
pub open spec fn sign32(b: u32) -> bool {
    b >= 0x8000_0000
}

/// Magnitude (pattern with the sign bit cleared) of a binary32 pattern.
pub open spec fn mag32(b: u32) -> int {
    (b as int) % 0x8000_0000
}

/// Biased exponent field of a binary32 pattern.
pub open spec fn exp32(b: u32) -> int {
    mag32(b) / 0x80_0000
}

/// Fraction field of a binary32 pattern.
pub open spec fn frac32(b: u32) -> int {
    mag32(b) % 0x80_0000
}

/// Whether a binary32 pattern is a NaN.
pub open spec fn is_nan32(b: u32) -> bool {
    exp32(b) == 255 && frac32(b) != 0
}

/// Sign bit of a binary64 pattern.
pub open spec fn sign64(b: u64) -> bool {
    b >= 0x8000_0000_0000_0000
}

/// Magnitude of a binary64 pattern.
pub open spec fn mag64(b: u64) -> int {
    (b as int) % 0x8000_0000_0000_0000
}

/// Biased exponent field of a binary64 pattern.
pub open spec fn exp64(b: u64) -> int {
    mag64(b) / 0x10_0000_0000_0000
}

/// Fraction field of a binary64 pattern.
pub open spec fn frac64(b: u64) -> int {
    mag64(b) % 0x10_0000_0000_0000
}

/// Whether a binary64 pattern is a NaN.
pub open spec fn is_nan64(b: u64) -> bool {
    exp64(b) == 2047 && frac64(b) != 0
}

// ---------------------------------------------------------------------------
// Value ordering of non-NaN patterns
// ---------------------------------------------------------------------------
/// Order key of a non-NaN binary32 pattern: keys are ordered exactly as the
/// represented extended-real values, with the one refinement that the key of
/// a negative zero sits below the key of a positive zero (IEEE-754 treats
/// them as equal; a strict key makes the kernels deterministic).
pub open spec fn key32(b: u32) -> int {
    if sign32(b) {
        -mag32(b)
    } else {
        mag32(b)
    }
}

/// Order key of a non-NaN binary64 pattern.
pub open spec fn key64(b: u64) -> int {
    if sign64(b) {
        -mag64(b)
    } else {
        mag64(b)
    }
}

/// NaN-propagating minimum of two binary32 patterns: if either operand is
/// NaN the result is that NaN, otherwise the operand with the smaller value,
/// preferring the left operand on ties.
pub open spec fn float_min32(a: u32, b: u32) -> u32 {
    if is_nan32(a) {
        a
    } else if is_nan32(b) {
        b
    } else if key32(a) <= key32(b) {
        a
    } else {
        b
    }
}

/// NaN-propagating maximum of two binary32 patterns.
pub open spec fn float_max32(a: u32, b: u32) -> u32 {
    if is_nan32(a) {
        a
    } else if is_nan32(b) {
        b
    } else if key32(a) >= key32(b) {
        a
    } else {
        b
    }
}

/// NaN-propagating minimum of two binary64 patterns.
pub open spec fn float_min64(a: u64, b: u64) -> u64 {
    if is_nan64(a) {
        a
    } else if is_nan64(b) {
        b
    } else if key64(a) <= key64(b) {
        a
    } else {
        b
    }
}

/// NaN-propagating maximum of two binary64 patterns.
pub open spec fn float_max64(a: u64, b: u64) -> u64 {
    if is_nan64(a) {
        a
    } else if is_nan64(b) {
        b
    } else if key64(a) >= key64(b) {
        a
    } else {
        b
    }
}

// ---------------------------------------------------------------------------
// Executable forms
// ---------------------------------------------------------------------------
/// Executable NaN test for binary32.
pub fn nan32(b: u32) -> (r: bool)
    ensures
        r == is_nan32(b),
{
    let mag = b % 0x8000_0000;
    mag / 0x80_0000 == 255 && mag % 0x80_0000 != 0
}

/// Executable NaN test for binary64.
pub fn nan64(b: u64) -> (r: bool)
    ensures
        r == is_nan64(b),
{
    let mag = b % 0x8000_0000_0000_0000;
    mag / 0x10_0000_0000_0000 == 2047 && mag % 0x10_0000_0000_0000 != 0
}

/// Executable key comparison for binary32 patterns.
fn key32_le(a: u32, b: u32) -> (r: bool)
    ensures
        r == (key32(a) <= key32(b)),
{
    let sa = a >= 0x8000_0000;
    let sb = b >= 0x8000_0000;
    let ma = a % 0x8000_0000;
    let mb = b % 0x8000_0000;
    if sa && sb {
        ma >= mb
    } else if !sa && !sb {
        ma <= mb
    } else if sa {
        true
    } else {
        ma == 0 && mb == 0
    }
}

/// Executable key comparison for binary64 patterns.
fn key64_le(a: u64, b: u64) -> (r: bool)
    ensures
        r == (key64(a) <= key64(b)),
{
    let sa = a >= 0x8000_0000_0000_0000;
    let sb = b >= 0x8000_0000_0000_0000;
    let ma = a % 0x8000_0000_0000_0000;
    let mb = b % 0x8000_0000_0000_0000;
    if sa && sb {
        ma >= mb
    } else if !sa && !sb {
        ma <= mb
    } else if sa {
        true
    } else {
        ma == 0 && mb == 0
    }
}

/// Executable NaN-propagating minimum of two binary32 patterns.
pub fn min32(a: u32, b: u32) -> (r: u32)
    ensures
        r == float_min32(a, b),
{
    if nan32(a) {
        a
    } else if nan32(b) {
        b
    } else if key32_le(a, b) {
        a
    } else {
        b
    }
}

/// Executable NaN-propagating maximum of two binary32 patterns.
pub fn max32(a: u32, b: u32) -> (r: u32)
    ensures
        r == float_max32(a, b),
{
    if nan32(a) {
        a
    } else if nan32(b) {
        b
    } else if key32_le(b, a) {
        a
    } else {
        b
    }
}

/// Executable NaN-propagating minimum of two binary64 patterns.
pub fn min64(a: u64, b: u64) -> (r: u64)
    ensures
        r == float_min64(a, b),
{
    if nan64(a) {
        a
    } else if nan64(b) {
        b
    } else if key64_le(a, b) {
        a
    } else {
        b
    }
}

/// Executable NaN-propagating maximum of two binary64 patterns.
pub fn max64(a: u64, b: u64) -> (r: u64)
    ensures
        r == float_max64(a, b),
{
    if nan64(a) {
        a
    } else if nan64(b) {
        b
    } else if key64_le(b, a) {
        a
    } else {
        b
    }
}

// ---------------------------------------------------------------------------
// Round-to-nearest-even encoding of an integer
// ---------------------------------------------------------------------------
/// Position of the highest set bit: `pow2(floor_log2(m)) <= m` for `m >= 1`.
pub open spec fn floor_log2(m: nat) -> nat
    decreases m,
{
    if m <= 1 {
        0
    } else {
        1 + floor_log2(m / 2)
    }
}

/// `floor_log2` brackets its argument between two adjacent powers of two.
pub proof fn lemma_floor_log2(m: nat)
    requires
        m >= 1,
    ensures
        pow2(floor_log2(m)) <= m,
        m < pow2(floor_log2(m) + 1),
    decreases m,
{
    if m <= 1 {
        lemma2_to64();
    } else {
        lemma_floor_log2(m / 2);
        lemma_pow2_unfold(floor_log2(m));
        lemma_pow2_unfold(floor_log2(m) + 1);
    }
}

/// Rounds the quotient `q` of a division with remainder `rem` out of `d` to
/// the nearest integer, ties to even.
pub open spec fn round_half_even(q: int, rem: int, d: int) -> int {
    if 2 * rem < d {
        q
    } else if 2 * rem > d {
        q + 1
    } else if q % 2 == 0 {
        q
    } else {
        q + 1
    }
}

/// Normalised significand encoding of a positive integer `m` with `sig`
/// fraction bits: yields `(e, frac)` with `pow2(sig) <= frac < pow2(sig+1)`
/// such that `frac * pow2(e - sig)` is `m` rounded to `sig + 1` significant
/// bits, ties to even.
pub open spec fn sig_encode(m: nat, sig: nat) -> (int, int) {
    let p = floor_log2(m);
    if p <= sig {
        (p as int, (m * pow2((sig - p) as nat)) as int)
    } else {
        let d = pow2((p - sig) as nat) as int;
        let q = round_half_even(m as int / d, m as int % d, d);
        if q == pow2(sig + 1) {
            (p as int + 1, pow2(sig) as int)
        } else {
            (p as int, q)
        }
    }
}

/// Bit pattern, as an integer, of the float closest to the signed magnitude
/// `(neg, m)` in the format with `sig` fraction bits, exponent bias `bias`
/// and sign bit position `sbit`, ties to even.
pub open spec fn float_bits_of_sign_mag(neg: bool, m: nat, sig: nat, bias: nat, sbit: nat) -> int {
    if m == 0 {
        0
    } else {
        let (e, frac) = sig_encode(m, sig);
        (if neg {
            pow2(sbit) as int
        } else {
            0
        }) + (e + bias) * pow2(sig) + (frac - pow2(sig))
    }
}

/// Binary32 pattern of an integer, rounded to nearest, ties to even.
pub open spec fn f32_bits_of_int(v: int) -> int {
    float_bits_of_sign_mag(v < 0, (if v < 0 { -v } else { v }) as nat, 23, 127, 31)
}

/// Binary64 pattern of an integer, rounded to nearest, ties to even.
pub open spec fn f64_bits_of_int(v: int) -> int {
    float_bits_of_sign_mag(v < 0, (if v < 0 { -v } else { v }) as nat, 52, 1023, 63)
}

/// Executable power of two below `2^64`.
fn pow2_u64(n: u64) -> (r: u64)
    requires
        n < 64,
    ensures
        r as nat == pow2(n as nat),
{
    let mut i: u64 = 0;
    let mut r: u64 = 1;
    proof {
        lemma2_to64();
    }
    while i < n
        invariant
            i <= n,
            n < 64,
            r as nat == pow2(i as nat),
        decreases n - i,
    {
        proof {
            lemma_pow2_unfold(i as nat + 1);
            if (i as nat) < 62 {
                lemma_pow2_strictly_increases(i as nat, 62);
            }
            lemma2_to64_rest_holder();
        }
        r = r * 2;
        i = i + 1;
    }
    r
}

/// Wraps the vstd lemma giving the concrete values of `pow2(33)`..`pow2(64)`.
proof fn lemma2_to64_rest_holder()
    ensures
        pow2(62) == 0x4000000000000000,
        pow2(63) == 0x8000000000000000,
        pow2(64) == 0x10000000000000000,
        pow2(52) == 0x10000000000000,
        pow2(53) == 0x20000000000000,
{
    vstd::arithmetic::power2::lemma2_to64_rest();
}

/// Executable `floor_log2`.
fn floor_log2_u64(m: u64) -> (r: u64)
    requires
        m >= 1,
    ensures
        r as nat == floor_log2(m as nat),
        r < 64,
{
    let mut x: u64 = m;
    let mut p: u64 = 0;
    proof {
        lemma2_to64();
    }
    while x >= 2
        invariant
            x >= 1,
            p < 64,
            floor_log2(m as nat) == p as nat + floor_log2(x as nat),
            pow2(p as nat) * (x as nat) <= m as nat,
        decreases x,
    {
        proof {
            lemma_pow2_unfold(p as nat + 1);
            lemma_pow2_pos(p as nat + 1);
            assert(pow2(p as nat + 1) * ((x / 2) as nat) <= pow2(p as nat) * (x as nat))
                by (nonlinear_arith)
                requires
                    x >= 2,
                    pow2(p as nat + 1) == 2 * pow2(p as nat),
            ;
            assert(pow2(p as nat + 1) <= pow2(p as nat + 1) * ((x / 2) as nat))
                by (nonlinear_arith)
                requires
                    x >= 2,
                    pow2(p as nat + 1) >= 1,
            ;
            lemma_pow2_pos(p as nat + 1);
            lemma2_to64_rest_holder();
            if p as nat + 1 >= 64 {
                if p as nat + 1 > 64 {
                    lemma_pow2_strictly_increases(64, p as nat + 1);
                }
                assert(false);
            }
        }
        x = x / 2;
        p = p + 1;
    }
    proof {
        lemma_pow2_pos(p as nat);
        assert(pow2(p as nat) <= pow2(p as nat) * (x as nat)) by (nonlinear_arith)
            requires
                x >= 1,
                pow2(p as nat) >= 1,
        ;
    }
    p
}

/// Executable normalised significand encoding; `sig` is 23 or 52.
fn sig_encode_exec(m: u64, sig: u64) -> (r: (u64, u64))
    requires
        m >= 1,
        sig == 23 || sig == 52,
    ensures
        r.0 as int == sig_encode(m as nat, sig as nat).0,
        r.1 as int == sig_encode(m as nat, sig as nat).1,
        r.0 <= 64,
        pow2(sig as nat) <= r.1 as nat,
        (r.1 as nat) < pow2(sig as nat + 1),
{
    proof {
        lemma2_to64();
        lemma2_to64_rest_holder();
    }
    let p = floor_log2_u64(m);
    proof {
        lemma_floor_log2(m as nat);
    }
    if p <= sig {
        let shift = pow2_u64(sig - p);
        proof {
            lemma_pow2_pos((sig - p) as nat);
            lemma_pow2_adds((sig - p) as nat, p as nat);
            lemma_pow2_adds((sig - p) as nat, p as nat + 1);
            assert((m as nat) * pow2((sig - p) as nat) < pow2((sig - p) as nat) * pow2(
                p as nat + 1,
            )) by (nonlinear_arith)
                requires
                    (m as nat) < pow2(p as nat + 1),
                    pow2((sig - p) as nat) >= 1,
            ;
            assert(pow2((sig - p) as nat) * pow2(p as nat) <= (m as nat) * pow2(
                (sig - p) as nat,
            )) by (nonlinear_arith)
                requires
                    pow2(p as nat) <= m as nat,
                    pow2((sig - p) as nat) >= 1,
            ;
            lemma_pow2_strictly_increases(sig as nat + 1, 64);
        }
        (p, m * shift)
    } else {
        let d = pow2_u64(p - sig);
        proof {
            lemma_pow2_pos((p - sig) as nat);
        }
        let q = m / d;
        let rem = m % d;
        proof {
            lemma_remainder_upper(m as int, d as int);
            lemma_remainder_lower(m as int, d as int);
            lemma_fundamental_div_mod(m as int, d as int);
            // q < pow2(sig + 1)
            lemma_pow2_adds((p - sig) as nat, sig as nat + 1);
            lemma_multiply_divide_lt(m as int, d as int, pow2(sig as nat + 1) as int);
            // pow2(sig) <= q
            assert(pow2((p - sig) as nat) * pow2(sig as nat) <= m as nat) by {
                lemma_pow2_adds((p - sig) as nat, sig as nat);
            };
            assert(q as int == m as int / d as int);
            assert(pow2(sig as nat) <= q as nat) by (nonlinear_arith)
                requires
                    d as int * pow2(sig as nat) as int <= m as int,
                    d >= 1,
                    q as int == m as int / d as int,
                    m as int == d as int * (m as int / d as int) + (m as int % d as int),
                    0 <= m as int % d as int,
                    (m as int % d as int) < (d as int),
            ;
            // sig + 1 <= 53 < 64, so q and the rounded quotient fit easily
            lemma_pow2_strictly_increases(sig as nat + 1, 62);
            lemma2_to64_rest_holder();
            // d <= pow2(40): 2 * rem < 2 * d fits in u64
            lemma_pow2_strictly_increases((p - sig) as nat, 62);
        }
        let mut rq = q;
        if 2 * rem > d || (2 * rem == d && q % 2 == 1) {
            rq = q + 1;
        }
        proof {
            assert(rq as int == round_half_even(m as int / d as int, m as int % d as int, d as int));
        }
        let top = pow2_u64(sig + 1);
        if rq == top {
            let half = pow2_u64(sig);
            (p + 1, half)
        } else {
            (p, rq)
        }
    }
}

/// Assembles a full bit pattern from a sign and a magnitude; `sig`, `bias`
/// and `sbit` select the format (binary32: 23/127/31, binary64: 52/1023/63).
fn float_bits_exec(neg: bool, m: u64, sig: u64, bias: u64, sbit: u64) -> (r: u64)
    requires
        (sig == 23 && bias == 127 && sbit == 31) || (sig == 52 && bias == 1023 && sbit == 63),
    ensures
        r as int == float_bits_of_sign_mag(neg, m as nat, sig as nat, bias as nat, sbit as nat),
        sbit == 31 ==> r < 0x1_0000_0000,
{
    proof {
        lemma2_to64();
        lemma2_to64_rest_holder();
    }
    if m == 0 {
        return 0;
    }
    let (e, frac) = sig_encode_exec(m, sig);
    proof {
        lemma_pow2_pos(sig as nat);
        lemma_pow2_strictly_increases(sig as nat, sig as nat + 1);
        lemma_pow2_unfold(sig as nat + 1);
    }
    let ps = pow2_u64(sig);
    let base = (e + bias) * ps + (frac - ps);
    if neg {
        let sb = pow2_u64(sbit);
        base + sb
    } else {
        base
    }
}

/// Executable binary32 pattern of a signed 64-bit integer.
pub fn f32_from_i64(v: i64) -> (r: u32)
    ensures
        r as int == f32_bits_of_int(v as int),
{
    if v >= 0 {
        f32_from_parts(false, v as u64)
    } else if v == i64::MIN {
        f32_from_parts(true, 0x8000_0000_0000_0000)
    } else {
        f32_from_parts(true, (-v) as u64)
    }
}

/// Executable binary32 pattern of an unsigned 64-bit integer.
pub fn f32_from_u64(v: u64) -> (r: u32)
    ensures
        r as int == f32_bits_of_int(v as int),
{
    f32_from_parts(false, v)
}

fn f32_from_parts(neg: bool, m: u64) -> (r: u32)
    ensures
        r as int == float_bits_of_sign_mag(neg, m as nat, 23, 127, 31),
{
    let bits = float_bits_exec(neg, m, 23, 127, 31);
    bits as u32
}

/// Executable binary64 pattern of a signed 64-bit integer.
pub fn f64_from_i64(v: i64) -> (r: u64)
    ensures
        r as int == f64_bits_of_int(v as int),
{
    if v >= 0 {
        float_bits_exec(false, v as u64, 52, 1023, 63)
    } else if v == i64::MIN {
        float_bits_exec(true, 0x8000_0000_0000_0000, 52, 1023, 63)
    } else {
        float_bits_exec(true, (-v) as u64, 52, 1023, 63)
    }
}

/// Executable binary64 pattern of an unsigned 64-bit integer.
pub fn f64_from_u64(v: u64) -> (r: u64)
    ensures
        r as int == f64_bits_of_int(v as int),
{
    float_bits_exec(false, v, 52, 1023, 63)
}

// ---------------------------------------------------------------------------
// Exact widening binary32 -> binary64
// ---------------------------------------------------------------------------
/// Binary64 pattern holding exactly the value of a binary32 pattern. NaN
/// widens to NaN (payload shifted into the top of the wider fraction field),
/// infinities and zeros keep sign, and every finite value is preserved
/// exactly, denormals becoming normal.
pub open spec fn widen32(b: u32) -> int {
    let s: int = if sign32(b) {
        pow2(63) as int
    } else {
        0
    };
    if exp32(b) == 255 {
        s + 2047 * pow2(52) + frac32(b) * pow2(29)
    } else if mag32(b) == 0 {
        s
    } else {
        let m = if exp32(b) == 0 {
            frac32(b)
        } else {
            frac32(b) + pow2(23)
        };
        let scale: int = if exp32(b) == 0 {
            -149
        } else {
            exp32(b) - 150
        };
        let p = floor_log2(m as nat);
        s + (p + scale + 1023) * pow2(52) + (m * pow2((52 - p) as nat) - pow2(52))
    }
}

/// Executable widening of a binary32 pattern to binary64.
pub fn widen32_to64(b: u32) -> (r: u64)
    ensures
        r as int == widen32(b),
{
    proof {
        lemma2_to64();
        lemma2_to64_rest_holder();
    }
    let sgn = b >= 0x8000_0000;
    let mag = (b % 0x8000_0000) as u64;
    let e = mag / 0x80_0000;
    let f = mag % 0x80_0000;
    let s: u64 = if sgn {
        0x8000_0000_0000_0000
    } else {
        0
    };
    if e == 255 {
        proof {
            lemma2_to64_rest_holder();
        }
        s + 2047 * 0x10_0000_0000_0000 + f * 0x2000_0000
    } else if mag == 0 {
        s
    } else {
        let m = if e == 0 {
            f
        } else {
            f + 0x80_0000
        };
        let p = floor_log2_u64(m);
        proof {
            lemma_floor_log2(m as nat);
            if p >= 24 {
                if p > 24 {
                    lemma_pow2_strictly_increases(24, p as nat);
                }
                assert(false);
            }
        }
        let shift = pow2_u64(52 - p);
        proof {
            lemma_pow2_pos((52 - p) as nat);
            lemma_pow2_adds((52 - p) as nat, p as nat);
            lemma_pow2_adds((52 - p) as nat, p as nat + 1);
            assert((m as nat) * pow2((52 - p) as nat) < pow2((52 - p) as nat) * pow2(p as nat + 1))
                by (nonlinear_arith)
                requires
                    (m as nat) < pow2(p as nat + 1),
                    pow2((52 - p) as nat) >= 1,
            ;
            assert(pow2((52 - p) as nat) * pow2(p as nat) <= (m as nat) * pow2((52 - p) as nat))
                by (nonlinear_arith)
                requires
                    pow2(p as nat) <= m as nat,
                    pow2((52 - p) as nat) >= 1,
            ;
            lemma_pow2_pos((52 - p) as nat);
        }
        let frac_full = m * shift;
        let ebiased = if e == 0 {
            p + 874
        } else {
            p + e + 873
        };
        s + ebiased * 0x10_0000_0000_0000 + (frac_full - 0x10_0000_0000_0000)
    }
}

} // verus!
