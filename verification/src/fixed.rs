//! Fixed-point arithmetic on micro-unit quantities.
//!
//! A physical quantity is carried as an `i64` counting millionths of its
//! unit.  All arithmetic here rounds toward negative infinity (floor),
//! matching the mathematical `/` of the specifications.

use vstd::prelude::*;
use vstd::arithmetic::div_mod::{
    lemma_fundamental_div_mod, lemma_fundamental_div_mod_converse,
};
use vstd::arithmetic::div_mod::{lemma_div_is_ordered, lemma_div_multiples_vanish};
use vstd::arithmetic::mul::lemma_mul_unary_negation;

verus! {

/// A quantity fits the symmetric `i64` range (the minimum value is left
/// out so that every representable quantity has a representable negation).
pub open spec fn i64_fits(v: int) -> bool {
    -0x7fff_ffff_ffff_ffff <= v <= 0x7fff_ffff_ffff_ffff
}

/// Floor of `v * num / den`.
pub open spec fn mul_div(v: int, num: int, den: int) -> int {
    (v * num) / den
}

/// Floor division of a non-negative magnitude, computed in `u128`.
fn mag_div(m: u128, den: u128) -> (q: u128)
    requires
        0 < den,
    ensures
        q == m as int / den as int,
{
    m / den
}

/// For a negative dividend `-m`, floor division by `den` rounds away from
/// zero: it is `-(m / den)` when `den` divides `m`, else `-(m / den) - 1`.
proof fn lemma_neg_div(m: int, den: int)
    requires
        0 <= m,
        0 < den,
    ensures
        m % den == 0 ==> (-m) / den == -(m / den),
        m % den != 0 ==> (-m) / den == -(m / den) - 1,
{
    lemma_fundamental_div_mod(m, den);
    let q = m / den;
    let r = m % den;
    if r == 0 {
        assert(-m == (-q) * den + 0) by (nonlinear_arith)
            requires m == den * q + r, r == 0,
        ;
        lemma_fundamental_div_mod_converse(-m, den, -q, 0);
    } else {
        assert(-m == (-q - 1) * den + (den - r)) by (nonlinear_arith)
            requires m == den * q + r,
        ;
        lemma_fundamental_div_mod_converse(-m, den, -q - 1, den - r);
    }
}

/// Computes the floor of `v * num / den` exactly, using 128-bit
/// intermediates so that no representable input can overflow.
pub fn mul_div_floor(v: i64, num: i64, den: i64) -> (r: i64)
    requires
        0 <= num,
        0 < den,
        i64_fits(mul_div(v as int, num as int, den as int)),
    ensures
        r == mul_div(v as int, num as int, den as int),
{
    proof {
        assert((v as int) * (num as int) <= 0x7fff_ffff_ffff_ffff * 0x7fff_ffff_ffff_ffff
            && (v as int) * (num as int) >= -0x8000_0000_0000_0000 * 0x7fff_ffff_ffff_ffff)
            by (nonlinear_arith)
            requires
                -0x8000_0000_0000_0000 <= v as int <= 0x7fff_ffff_ffff_ffff,
                0 <= num as int <= 0x7fff_ffff_ffff_ffff,
        ;
    }
    if v >= 0 {
        let m: u128 = (v as u128) * (num as u128);
        let q: u128 = mag_div(m, den as u128);
        proof {
            assert(q <= m);
            assert(q == mul_div(v as int, num as int, den as int));
        }
        q as i64
    } else {
        let mag: u128 = (-(v as i128)) as u128;
        proof {
            assert(mag as int * (num as int) <= 0x8000_0000_0000_0000 * 0x7fff_ffff_ffff_ffff)
                by (nonlinear_arith)
                requires
                    0 <= mag as int <= 0x8000_0000_0000_0000,
                    0 <= num as int <= 0x7fff_ffff_ffff_ffff,
            ;
        }
        let m: u128 = mag * (num as u128);
        let q: u128 = mag_div(m, den as u128);
        let rem: u128 = m % (den as u128);
        proof {
            assert(m == mag * (num as int));
            lemma_mul_unary_negation(v as int, num as int);
            assert((v as int) * (num as int) == -(m as int));
            lemma_neg_div(m as int, den as int);
            assert(rem == 0 ==> mul_div(v as int, num as int, den as int) == -(q as int));
            assert(rem != 0 ==> mul_div(v as int, num as int, den as int) == -(q as int) - 1);
        }
        if rem == 0 {
            -(q as i64)
        } else {
            -(q as i64) - 1
        }
    }
}

/// Floor of `v / den`.
pub fn div_floor(v: i64, den: i64) -> (r: i64)
    requires
        0 < den,
        i64_fits(v as int),
    ensures
        r == v as int / den as int,
{
    proof {
        assert(v as int * 1 == v as int);
        assert(i64_fits(v as int / den as int)) by (nonlinear_arith)
            requires
                i64_fits(v as int),
                0 < den,
        ;
    }
    mul_div_floor(v, 1, den)
}

/// Linear interpolation between `a` (weight `1 - q`) and `b` (weight `q`),
/// with the quality `q` given in millionths.
pub open spec fn lerp(a: int, b: int, q: int) -> int {
    (a * (1_000_000 - q) + b * q) / 1_000_000
}

/// An interpolated value never leaves the interval spanned by its
/// endpoints.
pub proof fn lemma_lerp_bounds(a: int, b: int, q: int)
    requires
        0 <= q <= 1_000_000,
    ensures
        a <= b ==> a <= lerp(a, b, q) <= b,
        b <= a ==> b <= lerp(a, b, q) <= a,
{
    let n = a * (1_000_000 - q) + b * q;
    let (lo, hi) = if a <= b { (a, b) } else { (b, a) };
    assert(lo * 1_000_000 <= n <= hi * 1_000_000) by (nonlinear_arith)
        requires
            0 <= q <= 1_000_000,
            lo <= a <= hi,
            lo <= b <= hi,
            n == a * (1_000_000 - q) + b * q,
    ;
    lemma_div_is_ordered(lo * 1_000_000, n, 1_000_000);
    lemma_div_is_ordered(n, hi * 1_000_000, 1_000_000);
    lemma_div_multiples_vanish(lo, 1_000_000);
    lemma_div_multiples_vanish(hi, 1_000_000);
}

/// Strictness at the interval's ends.  Toward the far endpoint the
/// interpolation is strict whenever `0 < q < 1_000_000`; toward the near
/// endpoint it is strict once the interpolation step amounts to at least
/// one micro-unit (otherwise flooring may collapse it onto the endpoint).
pub proof fn lemma_lerp_strict(a: int, b: int, q: int)
    requires
        0 < q < 1_000_000,
        a < b,
    ensures
        lerp(a, b, q) < b,
        (b - a) * q >= 1_000_000 ==> a < lerp(a, b, q),
{
    let n = a * (1_000_000 - q) + b * q;
    assert(n <= b * 1_000_000 - 1) by (nonlinear_arith)
        requires
            0 < q < 1_000_000,
            a < b,
            n == a * (1_000_000 - q) + b * q,
    ;
    assert((b * 1_000_000 - 1) / 1_000_000 == b - 1) by {
        assert(b * 1_000_000 - 1 == (b - 1) * 1_000_000 + 999_999) by (nonlinear_arith);
        lemma_fundamental_div_mod_converse(b * 1_000_000 - 1, 1_000_000, b - 1, 999_999);
    }
    lemma_div_is_ordered(n, b * 1_000_000 - 1, 1_000_000);
    if (b - a) * q >= 1_000_000 {
        assert(n >= (a + 1) * 1_000_000) by (nonlinear_arith)
            requires
                (b - a) * q >= 1_000_000,
                n == a * (1_000_000 - q) + b * q,
        ;
        lemma_div_is_ordered((a + 1) * 1_000_000, n, 1_000_000);
        lemma_div_multiples_vanish(a + 1, 1_000_000);
    }
}

/// Computes `lerp` exactly: the numerator is formed in 128 bits and
/// floor-divided by one million.
pub fn lerp_micro(a: i64, b: i64, q: i64) -> (r: i64)
    requires
        0 <= q <= 1_000_000,
    ensures
        r == lerp(a as int, b as int, q as int),
{
    proof {
        assert((a as int) * (1_000_000 - q as int) <= 0x8000_0000_0000_0000 * 1_000_000
            && (a as int) * (1_000_000 - q as int) >= -0x8000_0000_0000_0000 * 1_000_000
            && (b as int) * (q as int) <= 0x8000_0000_0000_0000 * 1_000_000
            && (b as int) * (q as int) >= -0x8000_0000_0000_0000 * 1_000_000)
            by (nonlinear_arith)
            requires
                -0x8000_0000_0000_0000 <= a as int <= 0x7fff_ffff_ffff_ffff,
                -0x8000_0000_0000_0000 <= b as int <= 0x7fff_ffff_ffff_ffff,
                0 <= q as int <= 1_000_000,
        ;
        lemma_lerp_bounds(a as int, b as int, q as int);
    }
    let n: i128 = (a as i128) * ((1_000_000 - q) as i128) + (b as i128) * (q as i128);
    let r128: i128 = if n >= 0 {
        ((n as u128) / 1_000_000u128) as i128
    } else {
        let mag: u128 = (-n) as u128;
        let qq: u128 = mag / 1_000_000u128;
        let rem: u128 = mag % 1_000_000u128;
        proof {
            lemma_neg_div(mag as int, 1_000_000);
        }
        if rem == 0 {
            -(qq as i128)
        } else {
            -(qq as i128) - 1
        }
    };
    r128 as i64
}

/// The reciprocal of a micro-unit quantity, itself in micro-units:
/// `recip_micro(d)` is the floor of `10^12 / d`.
pub open spec fn recip_micro(d: int) -> int {
    1_000_000_000_000int / d
}

/// Upper bound on any physically meaningful micro-unit density (10^6
/// units), chosen so that its micro-unit reciprocal stays positive.
pub open spec fn recip_max() -> int {
    1_000_000_000_000int
}

fn recip(d: i64) -> (r: i64)
    requires
        0 < d,
    ensures
        r == recip_micro(d as int),
{
    proof {
        assert(1_000_000_000_000int / d as int <= 1_000_000_000_000) by (nonlinear_arith)
            requires 0 < d,
        ;
    }
    (1_000_000_000_000u64 / (d as u64)) as i64
}

/// Harmonic (specific-volume weighted) interpolation of two densities:
/// the reciprocal of the linear interpolation of the reciprocals.
pub open spec fn harmonic_density(dl: int, dv: int, q: int) -> int {
    recip_micro(lerp(recip_micro(dl), recip_micro(dv), q))
}

/// Computes `harmonic_density` exactly.
pub fn harmonic_density_micro(dl: i64, dv: i64, q: i64) -> (r: i64)
    requires
        0 < dl <= recip_max(),
        0 < dv <= recip_max(),
        0 <= q <= 1_000_000,
    ensures
        r == harmonic_density(dl as int, dv as int, q as int),
        0 < r,
{
    let vl = recip(dl);
    let vv = recip(dv);
    proof {
        assert(1 <= recip_micro(dl as int) <= 1_000_000_000_000
            && 1 <= recip_micro(dv as int) <= 1_000_000_000_000) by (nonlinear_arith)
            requires
                0 < dl as int <= 1_000_000_000_000,
                0 < dv as int <= 1_000_000_000_000,
        ;
    }
    let vm = lerp_micro(vl, vv, q);
    proof {
        lemma_lerp_bounds(vl as int, vv as int, q as int);
        assert(0 < vm);
        assert(0 < recip_micro(vm as int)) by (nonlinear_arith)
            requires 0 < vm as int <= 1_000_000_000_000,
        ;
    }
    recip(vm)
}

} // verus!
