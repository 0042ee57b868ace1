//! The line-function evaluator and the sparse multiplier.
//!
//! `doubling_step` and `addition_step` follow the standard tangent and
//! secant line formulas for a Jacobian-style working point over the
//! quadratic extension, producing the coefficient triple `(c0, c1, c2)` for
//! one Miller-loop iteration while advancing the point. `ell` evaluates the
//! line at a fixed first-group point and folds it into the degree-12
//! accumulator through the sparse multiplication.

use vstd::prelude::*;

verus! {

use crate::fp::Fp2;
use crate::fp::Fp12;
use crate::fp::fp2_add;
use crate::fp::fp2_sub;
use crate::fp::fp2_neg;
use crate::fp::fp2_mul;
use crate::fp::fp2_square;
use crate::fp::fp2_scale;
use crate::fp::fp12_mul_by_014;
use crate::fp::fp2_add_s;
use crate::fp::fp2_sub_s;
use crate::fp::fp2_neg_s;
use crate::fp::fp2_mul_s;
use crate::fp::fp2_square_s;
use crate::fp::fp2_scale_s;
use crate::fp::fp12_mul_by_014_s;
use crate::points::G1Affine;
use crate::points::G2Affine;
use crate::points::G2Projective;
use crate::points::g1a_wf;
use crate::points::g2a_wf;
use crate::points::g2p_wf;
use crate::fp::fp2_reduced;
use crate::fp::fp12_reduced;

/// Whether a line-coefficient triple is in reduced form.
pub open spec fn coeffs_wf(c: (Fp2, Fp2, Fp2)) -> bool {
    fp2_reduced(c.0) && fp2_reduced(c.1) && fp2_reduced(c.2)
}

/// One doubling step: the doubled point and this iteration's line
/// coefficients, as pure functions of the working point.
pub open spec fn doubling_step_s(r: G2Projective) -> (G2Projective, (Fp2, Fp2, Fp2)) {
    let tmp0 = fp2_square_s(r.x);
    let tmp1 = fp2_square_s(r.y);
    let tmp2 = fp2_square_s(tmp1);
    let tmp3a = fp2_sub_s(fp2_sub_s(fp2_square_s(fp2_add_s(tmp1, r.x)), tmp0), tmp2);
    let tmp3 = fp2_add_s(tmp3a, tmp3a);
    let tmp4 = fp2_add_s(fp2_add_s(tmp0, tmp0), tmp0);
    let tmp6 = fp2_add_s(r.x, tmp4);
    let tmp5 = fp2_square_s(tmp4);
    let zsquared = fp2_square_s(r.z);
    let xp = fp2_sub_s(fp2_sub_s(tmp5, tmp3), tmp3);
    let zp = fp2_sub_s(fp2_sub_s(fp2_square_s(fp2_add_s(r.z, r.y)), tmp1), zsquared);
    let ya = fp2_mul_s(fp2_sub_s(tmp3, xp), tmp4);
    let tmp2b = fp2_add_s(tmp2, tmp2);
    let tmp2c = fp2_add_s(tmp2b, tmp2b);
    let tmp2d = fp2_add_s(tmp2c, tmp2c);
    let yp = fp2_sub_s(ya, tmp2d);
    let tmp3b = fp2_mul_s(tmp4, zsquared);
    let tmp3c = fp2_add_s(tmp3b, tmp3b);
    let tmp3d = fp2_neg_s(tmp3c);
    let tmp6b = fp2_sub_s(fp2_sub_s(fp2_square_s(tmp6), tmp0), tmp5);
    let tmp1b = fp2_add_s(tmp1, tmp1);
    let tmp1c = fp2_add_s(tmp1b, tmp1b);
    let tmp6c = fp2_sub_s(tmp6b, tmp1c);
    let tmp0b = fp2_mul_s(zp, zsquared);
    let tmp0c = fp2_add_s(tmp0b, tmp0b);
    (G2Projective { x: xp, y: yp, z: zp }, (tmp0c, tmp3d, tmp6c))
}

/// One addition step against the fixed base point: the summed point and
/// this iteration's line coefficients.
pub open spec fn addition_step_s(r: G2Projective, q: G2Affine) -> (G2Projective, (Fp2, Fp2, Fp2)) {
    let zsquared = fp2_square_s(r.z);
    let ysquared = fp2_square_s(q.y);
    let t0 = fp2_mul_s(zsquared, q.x);
    let t1 = fp2_mul_s(
        fp2_sub_s(fp2_sub_s(fp2_square_s(fp2_add_s(q.y, r.z)), ysquared), zsquared),
        zsquared,
    );
    let t2 = fp2_sub_s(t0, r.x);
    let t3 = fp2_square_s(t2);
    let t4a = fp2_add_s(t3, t3);
    let t4 = fp2_add_s(t4a, t4a);
    let t5 = fp2_mul_s(t4, t2);
    let t6 = fp2_sub_s(fp2_sub_s(t1, r.y), r.y);
    let t9 = fp2_mul_s(t6, q.x);
    let t7 = fp2_mul_s(t4, r.x);
    let xp = fp2_sub_s(fp2_sub_s(fp2_sub_s(fp2_square_s(t6), t5), t7), t7);
    let zp = fp2_sub_s(fp2_sub_s(fp2_square_s(fp2_add_s(r.z, t2)), zsquared), t3);
    let t10 = fp2_add_s(q.y, zp);
    let t8 = fp2_mul_s(fp2_sub_s(t7, xp), t6);
    let t0b = fp2_mul_s(r.y, t5);
    let t0c = fp2_add_s(t0b, t0b);
    let yp = fp2_sub_s(t8, t0c);
    let t10b = fp2_sub_s(fp2_square_s(t10), ysquared);
    let ztsquared = fp2_square_s(zp);
    let t10c = fp2_sub_s(t10b, ztsquared);
    let t9b = fp2_sub_s(fp2_add_s(t9, t9), t10c);
    let t10d = fp2_add_s(zp, zp);
    let t6b = fp2_neg_s(t6);
    let t1b = fp2_add_s(t6b, t6b);
    (G2Projective { x: xp, y: yp, z: zp }, (t10d, t1b, t9b))
}

/// The sparse fold of one line into the accumulator: the line's `c0` is
/// scaled by the first-group point's `y`, its `c1` by the point's `x`, and
/// the result is multiplied in through the 0-1-4 sparse multiplication.
pub open spec fn ell_s(f: Fp12, coeffs: (Fp2, Fp2, Fp2), p: G1Affine) -> Fp12 {
    fp12_mul_by_014_s(f, coeffs.2, fp2_scale_s(coeffs.1, p.x), fp2_scale_s(coeffs.0, p.y))
}

/// Doubles the working point and returns the tangent line's coefficients.
pub fn doubling_step(r: &mut G2Projective) -> (coeffs: (Fp2, Fp2, Fp2))
    ensures
        (*final(r), coeffs) == doubling_step_s(*old(r)),
        g2p_wf(*old(r)) ==> g2p_wf(*final(r)) && coeffs_wf(coeffs),
{
    let tmp0 = fp2_square(&r.x);
    let tmp1 = fp2_square(&r.y);
    let tmp2 = fp2_square(&tmp1);
    let tmp3 = fp2_sub(&fp2_sub(&fp2_square(&fp2_add(&tmp1, &r.x)), &tmp0), &tmp2);
    let tmp3 = fp2_add(&tmp3, &tmp3);
    let tmp4 = fp2_add(&fp2_add(&tmp0, &tmp0), &tmp0);
    let tmp6 = fp2_add(&r.x, &tmp4);
    let tmp5 = fp2_square(&tmp4);
    let zsquared = fp2_square(&r.z);
    let xp = fp2_sub(&fp2_sub(&tmp5, &tmp3), &tmp3);
    let zp = fp2_sub(&fp2_sub(&fp2_square(&fp2_add(&r.z, &r.y)), &tmp1), &zsquared);
    let yp = fp2_mul(&fp2_sub(&tmp3, &xp), &tmp4);
    let tmp2 = fp2_add(&tmp2, &tmp2);
    let tmp2 = fp2_add(&tmp2, &tmp2);
    let tmp2 = fp2_add(&tmp2, &tmp2);
    let yp = fp2_sub(&yp, &tmp2);
    let tmp3 = fp2_mul(&tmp4, &zsquared);
    let tmp3 = fp2_add(&tmp3, &tmp3);
    let tmp3 = fp2_neg(&tmp3);
    let tmp6 = fp2_sub(&fp2_sub(&fp2_square(&tmp6), &tmp0), &tmp5);
    let tmp1 = fp2_add(&tmp1, &tmp1);
    let tmp1 = fp2_add(&tmp1, &tmp1);
    let tmp6 = fp2_sub(&tmp6, &tmp1);
    let tmp0 = fp2_mul(&zp, &zsquared);
    let tmp0 = fp2_add(&tmp0, &tmp0);
    r.x = xp;
    r.y = yp;
    r.z = zp;
    (tmp0, tmp3, tmp6)
}

/// Adds the fixed base point into the working point and returns the secant
/// line's coefficients.
pub fn addition_step(r: &mut G2Projective, q: &G2Affine) -> (coeffs: (Fp2, Fp2, Fp2))
    ensures
        (*final(r), coeffs) == addition_step_s(*old(r), *q),
        g2p_wf(*old(r)) && g2a_wf(*q) ==> g2p_wf(*final(r)) && coeffs_wf(coeffs),
{
    let zsquared = fp2_square(&r.z);
    let ysquared = fp2_square(&q.y);
    let t0 = fp2_mul(&zsquared, &q.x);
    let t1 = fp2_mul(
        &fp2_sub(&fp2_sub(&fp2_square(&fp2_add(&q.y, &r.z)), &ysquared), &zsquared),
        &zsquared,
    );
    let t2 = fp2_sub(&t0, &r.x);
    let t3 = fp2_square(&t2);
    let t4 = fp2_add(&t3, &t3);
    let t4 = fp2_add(&t4, &t4);
    let t5 = fp2_mul(&t4, &t2);
    let t6 = fp2_sub(&fp2_sub(&t1, &r.y), &r.y);
    let t9 = fp2_mul(&t6, &q.x);
    let t7 = fp2_mul(&t4, &r.x);
    let xp = fp2_sub(&fp2_sub(&fp2_sub(&fp2_square(&t6), &t5), &t7), &t7);
    let zp = fp2_sub(&fp2_sub(&fp2_square(&fp2_add(&r.z, &t2)), &zsquared), &t3);
    let t10 = fp2_add(&q.y, &zp);
    let t8 = fp2_mul(&fp2_sub(&t7, &xp), &t6);
    let t0 = fp2_mul(&r.y, &t5);
    let t0 = fp2_add(&t0, &t0);
    let yp = fp2_sub(&t8, &t0);
    let t10 = fp2_sub(&fp2_square(&t10), &ysquared);
    let ztsquared = fp2_square(&zp);
    let t10 = fp2_sub(&t10, &ztsquared);
    let t9 = fp2_sub(&fp2_add(&t9, &t9), &t10);
    let t10 = fp2_add(&zp, &zp);
    let t6 = fp2_neg(&t6);
    let t1 = fp2_add(&t6, &t6);
    r.x = xp;
    r.y = yp;
    r.z = zp;
    (t10, t1, t9)
}

/// Evaluates one cached line at the fixed first-group point and multiplies
/// it into the accumulator.
pub fn ell(f: &Fp12, coeffs: &(Fp2, Fp2, Fp2), p: &G1Affine) -> (r: Fp12)
    ensures
        r == ell_s(*f, *coeffs, *p),
        fp12_reduced(*f) && coeffs_wf(*coeffs) && g1a_wf(*p) ==> fp12_reduced(r),
{
    let c0 = fp2_scale(&coeffs.0, &p.y);
    let c1 = fp2_scale(&coeffs.1, &p.x);
    fp12_mul_by_014(f, &coeffs.2, &c1, &c0)
}

} // verus!
