//! 16.16 fixed-point scalar arithmetic.
//!
//! Every geometric quantity in the pipeline (vertex positions, normals,
//! matrix entries, color channels) is an `i64` holding a real value scaled
//! by `FP_ONE`. Products are computed exactly in `i128` and rescaled with
//! a floor division, so the whole pipeline is deterministic integer math.

use vstd::prelude::*;
use vstd::arithmetic::div_mod::{
    lemma_div_is_ordered, lemma_fundamental_div_mod, lemma_fundamental_div_mod_converse_div,
};

verus! {

/// The fixed-point representation of 1.0: values carry 16 fractional bits.
pub const FP_ONE: i64 = 65536;

/// Bound on world-space coordinates and matrix entries accepted by the
/// pipeline: 2^30 raw units, i.e. real values within +/- 2^14.
pub const FP_COORD_LIMIT: i64 = 0x4000_0000;

/// Bound on the entries of a derived normal matrix (a difference of two
/// products of coordinate-bounded entries): 2^45 raw units.
pub const FP_NORMAL_LIMIT: i64 = 0x2000_0000_0000;

/// Bound on any scalar the pipeline ever produces: 2^61 raw units.
pub const FP_VALUE_LIMIT: i64 = 0x2000_0000_0000_0000;

/// The value of a fixed-point product: the exact integer product, rescaled
/// by a floor division (Euclidean division by the positive `FP_ONE`).
pub open spec fn fp_mul_spec(a: int, b: int) -> int {
    (a * b) / (FP_ONE as int)
}

/// True when `x` lies within `-bound ..= bound`.
pub open spec fn fp_within(x: int, bound: int) -> bool {
    -bound <= x <= bound
}

/// Rescales an exact `i128` product down by `FP_ONE`, rounding toward
/// negative infinity, matching Euclidean division by a positive divisor.
fn fp_scale_down(p: i128) -> (r: i64)
    requires
        fp_within(p as int, 0x4000_0000_0000int * 0x8000_0000int),
    ensures
        r as int == p as int / (FP_ONE as int),
        fp_within(r as int, FP_VALUE_LIMIT as int),
{
    proof {
        assert(0x4000_0000_0000int * 0x8000_0000int == 0x2000_0000_0000_0000int * 65536int);
        lemma_fundamental_div_mod_converse_div(
            0x4000_0000_0000int * 0x8000_0000int,
            65536,
            0x2000_0000_0000_0000,
            0,
        );
    }
    if p >= 0 {
        let mag: u128 = p as u128;
        let q: u128 = mag / 65536;
        proof {
            lemma_div_is_ordered(mag as int, 0x4000_0000_0000int * 0x8000_0000int, 65536);
        }
        q as i64
    } else {
        let mag: u128 = (-p) as u128;
        let q: u128 = mag / 65536;
        let rem: u128 = mag % 65536;
        proof {
            lemma_div_is_ordered(mag as int, 0x4000_0000_0000int * 0x8000_0000int, 65536);
            lemma_fundamental_div_mod(mag as int, 65536);
            if rem == 0 {
                lemma_fundamental_div_mod_converse_div(p as int, 65536, -(q as int), 0);
            } else {
                lemma_fundamental_div_mod_converse_div(
                    p as int,
                    65536,
                    -(q as int) - 1,
                    65536 - rem as int,
                );
            }
        }
        if rem == 0 {
            -(q as i64)
        } else {
            -(q as i64) - 1
        }
    }
}

/// Fixed-point multiplication. The bounds admit every product the
/// pipeline forms: a normal-matrix entry times a coordinate is the
/// widest case.
pub fn fp_mul(a: i64, b: i64) -> (r: i64)
    requires
        fp_within(a as int, 0x4000_0000_0000),
        fp_within(b as int, 0x8000_0000),
    ensures
        r as int == fp_mul_spec(a as int, b as int),
        fp_within(r as int, FP_VALUE_LIMIT as int),
{
    proof {
        assert(
            fp_within((a as int) * (b as int), 0x4000_0000_0000int * 0x8000_0000int)
        ) by (nonlinear_arith)
            requires
                -0x4000_0000_0000 <= a as int <= 0x4000_0000_0000,
                -0x8000_0000 <= b as int <= 0x8000_0000,
        ;
    }
    let p: i128 = (a as i128) * (b as i128);
    fp_scale_down(p)
}

/// A product of two coordinate-bounded values rescales to at most 2^44.
pub proof fn lemma_fp_mul_coord_bound(a: int, b: int)
    requires
        fp_within(a, FP_COORD_LIMIT as int),
        fp_within(b, FP_COORD_LIMIT as int),
    ensures
        fp_within(fp_mul_spec(a, b), 0x1000_0000_0000),
{
    assert(-0x1000_0000_0000_0000 <= a * b <= 0x1000_0000_0000_0000) by (nonlinear_arith)
        requires
            -0x4000_0000 <= a <= 0x4000_0000,
            -0x4000_0000 <= b <= 0x4000_0000,
    ;
    assert(0x1000_0000_0000_0000int == 65536 * 0x1000_0000_0000);
    lemma_fundamental_div_mod_converse_div(0x1000_0000_0000_0000, 65536, 0x1000_0000_0000, 0);
    lemma_fundamental_div_mod_converse_div(-0x1000_0000_0000_0000, 65536, -0x1000_0000_0000, 0);
    lemma_div_is_ordered(a * b, 0x1000_0000_0000_0000, 65536);
    lemma_div_is_ordered(-0x1000_0000_0000_0000, a * b, 65536);
}

/// A normal-matrix entry times a coordinate rescales to at most 2^59.
pub proof fn lemma_fp_mul_normal_bound(a: int, b: int)
    requires
        fp_within(a, FP_NORMAL_LIMIT as int),
        fp_within(b, FP_COORD_LIMIT as int),
    ensures
        fp_within(fp_mul_spec(a, b), 0x800_0000_0000_0000),
{
    assert(
        -(0x2000_0000_0000int * 0x4000_0000int) <= a * b <= 0x2000_0000_0000int * 0x4000_0000int
    ) by (nonlinear_arith)
        requires
            -0x2000_0000_0000 <= a <= 0x2000_0000_0000,
            -0x4000_0000 <= b <= 0x4000_0000,
    ;
    assert(0x2000_0000_0000int * 0x4000_0000int == 0x800_0000_0000_0000int * 65536int);
    lemma_fundamental_div_mod_converse_div(
        0x2000_0000_0000int * 0x4000_0000int,
        65536,
        0x800_0000_0000_0000,
        0,
    );
    lemma_fundamental_div_mod_converse_div(
        -(0x2000_0000_0000int * 0x4000_0000int),
        65536,
        -0x800_0000_0000_0000,
        0,
    );
    lemma_div_is_ordered(a * b, 0x2000_0000_0000int * 0x4000_0000int, 65536);
    lemma_div_is_ordered(-(0x2000_0000_0000int * 0x4000_0000int), a * b, 65536);
}

} // verus!
