//! Carrier types for the BLS12-381 field tower and the trusted arithmetic
//! they rely on.
//!
//! The pairing engine treats base-field and extension-tower arithmetic as an
//! outside collaborator: every element is held here as its six 64-bit
//! Montgomery limbs per base-field coordinate, exactly the representation
//! `ark-bls12-381` uses internally, and each arithmetic operation is a thin
//! trusted call into that crate. The meaning of each operation is captured by
//! an uninterpreted spec function; everything the engine proves is stated
//! over those names. The degree-12 operations hand the two sextic halves to
//! their trusted calls separately, only to keep each trusted body to a bare
//! conversion around one call.

use vstd::prelude::*;

verus! {

use ark_bls12_381::Fq;
use ark_bls12_381::Fq2;
use ark_bls12_381::Fq6;
use ark_bls12_381::Fq12;
use ark_ff::BigInt;
use ark_ff::Field;
use ark_ff::UniformRand;
use ark_ff::Zero;

/// A base-field element: six 64-bit Montgomery limbs, least significant
/// first.
#[derive(Clone, Copy, PartialEq, Eq, Debug)]
pub struct Fp {
    pub l: [u64; 6],
}

/// An element of the quadratic extension `a + b * u`, each coordinate a
/// base-field element's limbs.
#[derive(Clone, Copy, PartialEq, Eq, Debug)]
pub struct Fp2 {
    pub a: [u64; 6],
    pub b: [u64; 6],
}

/// An element of the sextic extension: `c0 + c1 * v + c2 * v^2` over `Fp2`.
#[derive(Clone, Copy, PartialEq, Eq, Debug)]
pub struct Fp6 {
    pub c0: Fp2,
    pub c1: Fp2,
    pub c2: Fp2,
}

/// An element of the degree-12 extension: `c0 + c1 * w` over `Fp6`.
#[derive(Clone, Copy, PartialEq, Eq, Debug)]
pub struct Fp12 {
    pub c0: Fp6,
    pub c1: Fp6,
}

/// The sum of two `Fp2` values.
pub uninterp spec fn fp2_add_s(a: Fp2, b: Fp2) -> Fp2;

/// The difference of two `Fp2` values.
pub uninterp spec fn fp2_sub_s(a: Fp2, b: Fp2) -> Fp2;

/// The negation of an `Fp2` value.
pub uninterp spec fn fp2_neg_s(a: Fp2) -> Fp2;

/// The product of two `Fp2` values.
pub uninterp spec fn fp2_mul_s(a: Fp2, b: Fp2) -> Fp2;

/// The square of an `Fp2` value.
pub uninterp spec fn fp2_square_s(a: Fp2) -> Fp2;

/// An `Fp2` value multiplied by the sextic non-residue `1 + u`.
pub uninterp spec fn fp2_mul_by_nonresidue_s(a: Fp2) -> Fp2;

/// An `Fp2` value with both coordinates scaled by a base-field element.
pub uninterp spec fn fp2_scale_s(a: Fp2, k: Fp) -> Fp2;

/// Whether an `Fp2` value is the multiplicative identity.
pub uninterp spec fn fp2_is_one(a: Fp2) -> bool;

/// Whether an `Fp2` value is zero.
pub uninterp spec fn fp2_is_zero(a: Fp2) -> bool;

/// Whether a base-field element is in reduced (canonical) form: its limbs
/// spell an integer below the field modulus.
pub uninterp spec fn fp_reduced(a: Fp) -> bool;

/// Whether an `Fp2` value is in reduced (canonical) form: each coordinate's
/// limbs spell an integer below the field modulus. The collaborator keeps
/// reduced operands reduced; on unreduced encodings its arithmetic is
/// unspecified, so nothing is claimed of their results beyond determinism.
pub uninterp spec fn fp2_reduced(a: Fp2) -> bool;

/// The product of two `Fp12` values.
pub uninterp spec fn fp12_mul_s(a: Fp12, b: Fp12) -> Fp12;

/// The square of an `Fp12` value.
pub uninterp spec fn fp12_square_s(a: Fp12) -> Fp12;

/// One application of the Frobenius endomorphism (raising to the base-field
/// characteristic) to an `Fp12` value.
pub uninterp spec fn fp12_frobenius_s(a: Fp12) -> Fp12;

/// The multiplicative inverse of a nonzero `Fp12` value.
pub uninterp spec fn fp12_invert_s(a: Fp12) -> Fp12;

/// An `Fp12` value multiplied by the sparse element whose only nonzero
/// `Fp2` components are `c0` (slot 0), `c1` (slot 1) and `c4` (slot 4).
pub uninterp spec fn fp12_mul_by_014_s(f: Fp12, c0: Fp2, c1: Fp2, c4: Fp2) -> Fp12;

/// The conjugate of an `Fp12` value: the `w`-half is negated.
pub open spec fn fp12_conjugate_s(a: Fp12) -> Fp12 {
    Fp12 {
        c0: a.c0,
        c1: Fp6 {
            c0: fp2_neg_s(a.c1.c0),
            c1: fp2_neg_s(a.c1.c1),
            c2: fp2_neg_s(a.c1.c2),
        },
    }
}

/// Whether an `Fp6` value is zero, component by component.
pub open spec fn fp6_is_zero(a: Fp6) -> bool {
    fp2_is_zero(a.c0) && fp2_is_zero(a.c1) && fp2_is_zero(a.c2)
}

/// Whether an `Fp12` value is the multiplicative identity, component by
/// component.
pub open spec fn fp12_is_one(a: Fp12) -> bool {
    fp2_is_one(a.c0.c0) && fp2_is_zero(a.c0.c1) && fp2_is_zero(a.c0.c2) && fp6_is_zero(a.c1)
}

/// Whether an `Fp12` value is zero, component by component.
pub open spec fn fp12_is_zero(a: Fp12) -> bool {
    fp6_is_zero(a.c0) && fp6_is_zero(a.c1)
}

/// Whether an `Fp6` value is in reduced form, component by component.
pub open spec fn fp6_reduced(a: Fp6) -> bool {
    fp2_reduced(a.c0) && fp2_reduced(a.c1) && fp2_reduced(a.c2)
}

/// Whether an `Fp12` value is in reduced form, component by component.
pub open spec fn fp12_reduced(a: Fp12) -> bool {
    fp6_reduced(a.c0) && fp6_reduced(a.c1)
}

/// The multiplicative identity of the quadratic extension, as a value.
pub open spec fn fp2_one_v() -> Fp2 {
    choose|o: Fp2| fp2_is_one(o)
}

/// The multiplicative identity of the degree-12 extension, as a value.
pub open spec fn fp12_one_v() -> Fp12 {
    choose|o: Fp12| fp12_is_one(o)
}

/// Whether an optional `Fp12` value holds the multiplicative identity.
pub open spec fn fp12_opt_is_one(o: Option<Fp12>) -> bool {
    o matches Some(v) && fp12_is_one(v)
}

/// Whether an optional pair of sextic halves holds the multiplicative
/// identity.
pub open spec fn fp6_pair_is_one(o: Option<(Fp6, Fp6)>) -> bool {
    o matches Some(v) && fp12_is_one(Fp12 { c0: v.0, c1: v.1 })
}

/// Relies on `ark_ff` addition on `Fq2`. Adding zero to zero gives zero;
/// adding zero and one in either order gives one.
#[verifier::external_body]
pub(crate) fn fp2_add(a: &Fp2, b: &Fp2) -> (r: Fp2)
    ensures
        r == fp2_add_s(*a, *b),
        fp2_reduced(*a) && fp2_reduced(*b) ==> fp2_reduced(r),
        fp2_is_zero(*a) && fp2_is_zero(*b) ==> fp2_is_zero(r),
        fp2_is_one(*a) && fp2_is_zero(*b) ==> fp2_is_one(r),
        fp2_is_zero(*a) && fp2_is_one(*b) ==> fp2_is_one(r),
{
    let d = |x: &Fp2| Fq2::new(Fq::new_unchecked(BigInt(x.a)), Fq::new_unchecked(BigInt(x.b)));
    let z = d(a) + d(b);
    Fp2 { a: z.c0.0 .0, b: z.c1.0 .0 }
}

/// Relies on `ark_ff` subtraction on `Fq2`. Subtracting one from one or
/// zero from zero gives zero; subtracting zero from one gives one.
#[verifier::external_body]
pub(crate) fn fp2_sub(a: &Fp2, b: &Fp2) -> (r: Fp2)
    ensures
        r == fp2_sub_s(*a, *b),
        fp2_reduced(*a) && fp2_reduced(*b) ==> fp2_reduced(r),
        fp2_is_one(*a) && fp2_is_one(*b) ==> fp2_is_zero(r),
        fp2_is_zero(*a) && fp2_is_zero(*b) ==> fp2_is_zero(r),
        fp2_is_one(*a) && fp2_is_zero(*b) ==> fp2_is_one(r),
{
    let d = |x: &Fp2| Fq2::new(Fq::new_unchecked(BigInt(x.a)), Fq::new_unchecked(BigInt(x.b)));
    let z = d(a) - d(b);
    Fp2 { a: z.c0.0 .0, b: z.c1.0 .0 }
}

/// Relies on `ark_ff` negation on `Fq2`. The negation of zero is zero.
#[verifier::external_body]
pub(crate) fn fp2_neg(a: &Fp2) -> (r: Fp2)
    ensures
        r == fp2_neg_s(*a),
        fp2_reduced(*a) ==> fp2_reduced(r),
        fp2_is_zero(*a) ==> fp2_is_zero(r),
{
    let d = |x: &Fp2| Fq2::new(Fq::new_unchecked(BigInt(x.a)), Fq::new_unchecked(BigInt(x.b)));
    let z = -d(a);
    Fp2 { a: z.c0.0 .0, b: z.c1.0 .0 }
}

/// Relies on `ark_ff` multiplication on `Fq2`. A product with a zero
/// operand is zero; one times one is one.
#[verifier::external_body]
pub(crate) fn fp2_mul(a: &Fp2, b: &Fp2) -> (r: Fp2)
    ensures
        r == fp2_mul_s(*a, *b),
        fp2_reduced(*a) && fp2_reduced(*b) ==> fp2_reduced(r),
        fp2_is_zero(*a) ==> fp2_is_zero(r),
        fp2_is_zero(*b) ==> fp2_is_zero(r),
        fp2_is_one(*a) && fp2_is_one(*b) ==> fp2_is_one(r),
{
    let d = |x: &Fp2| Fq2::new(Fq::new_unchecked(BigInt(x.a)), Fq::new_unchecked(BigInt(x.b)));
    let z = d(a) * d(b);
    Fp2 { a: z.c0.0 .0, b: z.c1.0 .0 }
}

/// Relies on `ark_ff::Field::square` on `Fq2`. The squares of one and of
/// zero are one and zero.
#[verifier::external_body]
pub(crate) fn fp2_square(a: &Fp2) -> (r: Fp2)
    ensures
        r == fp2_square_s(*a),
        fp2_reduced(*a) ==> fp2_reduced(r),
        fp2_is_one(*a) ==> fp2_is_one(r),
        fp2_is_zero(*a) ==> fp2_is_zero(r),
{
    let d = |x: &Fp2| Fq2::new(Fq::new_unchecked(BigInt(x.a)), Fq::new_unchecked(BigInt(x.b)));
    let z = d(a).square();
    Fp2 { a: z.c0.0 .0, b: z.c1.0 .0 }
}

/// Relies on `ark_ff` multiplication on `Fq2` by the tower's sextic
/// non-residue, `ark_bls12_381::Fq6Config::NONRESIDUE` (which is `1 + u`).
/// Zero stays zero.
#[verifier::external_body]
pub(crate) fn fp2_mul_by_nonresidue(a: &Fp2) -> (r: Fp2)
    ensures
        r == fp2_mul_by_nonresidue_s(*a),
        fp2_reduced(*a) ==> fp2_reduced(r),
        fp2_is_zero(*a) ==> fp2_is_zero(r),
{
    let d = |x: &Fp2| Fq2::new(Fq::new_unchecked(BigInt(x.a)), Fq::new_unchecked(BigInt(x.b)));
    let n = <ark_bls12_381::Fq6Config as ark_ff::fields::models::fp6_3over2::Fp6Config>::NONRESIDUE;
    let z = d(a) * n;
    Fp2 { a: z.c0.0 .0, b: z.c1.0 .0 }
}

/// Relies on `ark_ff::QuadExtField::mul_assign_by_basefield`: both `Fq2`
/// coordinates are multiplied by the given base-field element.
#[verifier::external_body]
pub(crate) fn fp2_scale(a: &Fp2, k: &Fp) -> (r: Fp2)
    ensures
        r == fp2_scale_s(*a, *k),
        fp2_reduced(*a) && fp_reduced(*k) ==> fp2_reduced(r),
{
    let d = |x: &Fp2| Fq2::new(Fq::new_unchecked(BigInt(x.a)), Fq::new_unchecked(BigInt(x.b)));
    let mut z = d(a);
    z.mul_assign_by_basefield(&Fq::new_unchecked(BigInt(k.l)));
    Fp2 { a: z.c0.0 .0, b: z.c1.0 .0 }
}

/// Relies on `ark_ff::Field::ZERO` for `Fq2`: the zero value is unique and
/// is not the multiplicative identity.
#[verifier::external_body]
pub(crate) fn fp2_zero() -> (r: Fp2)
    ensures
        fp2_is_zero(r),
        fp2_reduced(r),
        !fp2_is_one(r),
        forall|x: Fp2| fp2_is_zero(x) ==> x == r,
{
    let z = Fq2::ZERO;
    Fp2 { a: z.c0.0 .0, b: z.c1.0 .0 }
}

/// Relies on `ark_ff::Field::ONE` for `Fq2`: the multiplicative identity
/// is unique and is not zero.
#[verifier::external_body]
pub(crate) fn fp2_one() -> (r: Fp2)
    ensures
        fp2_is_one(r),
        !fp2_is_zero(r),
        fp2_reduced(r),
        forall|x: Fp2| fp2_is_one(x) ==> x == r,
{
    let z = Fq2::ONE;
    Fp2 { a: z.c0.0 .0, b: z.c1.0 .0 }
}

/// Relies on `ark_ff` multiplication on `Fq12`, handed the two sextic
/// halves of each operand. One times one is one.
#[verifier::external_body]
fn fp12_mul_raw(a0: &Fp6, a1: &Fp6, b0: &Fp6, b1: &Fp6) -> (r: (Fp6, Fp6))
    ensures
        ({
            let v = fp12_mul_s((Fp12 { c0: *a0, c1: *a1 }), (Fp12 { c0: *b0, c1: *b1 }));
            r.0 == v.c0 && r.1 == v.c1
        }),
        fp12_reduced((Fp12 { c0: *a0, c1: *a1 })) && fp12_reduced((Fp12 { c0: *b0, c1: *b1 }))
            ==> fp12_reduced((Fp12 { c0: r.0, c1: r.1 })),
        fp12_is_one((Fp12 { c0: *a0, c1: *a1 })) && fp12_is_one((Fp12 { c0: *b0, c1: *b1 }))
            ==> fp12_is_one((Fp12 { c0: r.0, c1: r.1 })),
{
    let d = |x: Fp2| Fq2::new(Fq::new_unchecked(BigInt(x.a)), Fq::new_unchecked(BigInt(x.b)));
    let t = |x: &Fp6| Fq6::new(d(x.c0), d(x.c1), d(x.c2));
    let z = Fq12::new(t(a0), t(a1)) * Fq12::new(t(b0), t(b1));
    let e = |x: Fq2| Fp2 { a: x.c0.0 .0, b: x.c1.0 .0 };
    let s = |x: Fq6| Fp6 { c0: e(x.c0), c1: e(x.c1), c2: e(x.c2) };
    (s(z.c0), s(z.c1))
}

/// Multiplies two degree-12 values through the collaborator.
pub(crate) fn fp12_mul(a: &Fp12, b: &Fp12) -> (r: Fp12)
    ensures
        r == fp12_mul_s(*a, *b),
        fp12_reduced(*a) && fp12_reduced(*b) ==> fp12_reduced(r),
        fp12_is_one(*a) && fp12_is_one(*b) ==> fp12_is_one(r),
{
    let (c0, c1) = fp12_mul_raw(&a.c0, &a.c1, &b.c0, &b.c1);
    Fp12 { c0, c1 }
}

/// Relies on `ark_ff::Field::square` on `Fq12`, handed the operand's two
/// sextic halves. The square of one is one.
#[verifier::external_body]
fn fp12_square_raw(a0: &Fp6, a1: &Fp6) -> (r: (Fp6, Fp6))
    ensures
        ({
            let v = fp12_square_s((Fp12 { c0: *a0, c1: *a1 }));
            r.0 == v.c0 && r.1 == v.c1
        }),
        fp12_reduced((Fp12 { c0: *a0, c1: *a1 })) ==> fp12_reduced((Fp12 { c0: r.0, c1: r.1 })),
        fp12_is_one((Fp12 { c0: *a0, c1: *a1 })) ==> fp12_is_one((Fp12 { c0: r.0, c1: r.1 })),
{
    let d = |x: Fp2| Fq2::new(Fq::new_unchecked(BigInt(x.a)), Fq::new_unchecked(BigInt(x.b)));
    let t = |x: &Fp6| Fq6::new(d(x.c0), d(x.c1), d(x.c2));
    let z = Fq12::new(t(a0), t(a1)).square();
    let e = |x: Fq2| Fp2 { a: x.c0.0 .0, b: x.c1.0 .0 };
    let s = |x: Fq6| Fp6 { c0: e(x.c0), c1: e(x.c1), c2: e(x.c2) };
    (s(z.c0), s(z.c1))
}

/// Squares a degree-12 value through the collaborator.
pub(crate) fn fp12_square(a: &Fp12) -> (r: Fp12)
    ensures
        r == fp12_square_s(*a),
        fp12_reduced(*a) ==> fp12_reduced(r),
        fp12_is_one(*a) ==> fp12_is_one(r),
{
    let (c0, c1) = fp12_square_raw(&a.c0, &a.c1);
    Fp12 { c0, c1 }
}

/// Conjugation negates the `w`-half coordinate by coordinate; the
/// conjugate of one is one because negating zero gives zero.
pub(crate) fn fp12_conjugate(a: &Fp12) -> (r: Fp12)
    ensures
        r == fp12_conjugate_s(*a),
        fp12_reduced(*a) ==> fp12_reduced(r),
        fp12_is_one(*a) ==> fp12_is_one(r),
{
    Fp12 {
        c0: a.c0,
        c1: Fp6 {
            c0: fp2_neg(&a.c1.c0),
            c1: fp2_neg(&a.c1.c1),
            c2: fp2_neg(&a.c1.c2),
        },
    }
}

/// Relies on `ark_ff::Field::frobenius_map` with power 1 on `Fq12`, handed
/// the operand's two sextic halves. The Frobenius endomorphism fixes one.
#[verifier::external_body]
fn fp12_frobenius_raw(a0: &Fp6, a1: &Fp6) -> (r: (Fp6, Fp6))
    ensures
        ({
            let v = fp12_frobenius_s((Fp12 { c0: *a0, c1: *a1 }));
            r.0 == v.c0 && r.1 == v.c1
        }),
        fp12_reduced((Fp12 { c0: *a0, c1: *a1 })) ==> fp12_reduced((Fp12 { c0: r.0, c1: r.1 })),
        fp12_is_one((Fp12 { c0: *a0, c1: *a1 })) ==> fp12_is_one((Fp12 { c0: r.0, c1: r.1 })),
{
    let d = |x: Fp2| Fq2::new(Fq::new_unchecked(BigInt(x.a)), Fq::new_unchecked(BigInt(x.b)));
    let t = |x: &Fp6| Fq6::new(d(x.c0), d(x.c1), d(x.c2));
    let z = Fq12::new(t(a0), t(a1)).frobenius_map(1);
    let e = |x: Fq2| Fp2 { a: x.c0.0 .0, b: x.c1.0 .0 };
    let s = |x: Fq6| Fp6 { c0: e(x.c0), c1: e(x.c1), c2: e(x.c2) };
    (s(z.c0), s(z.c1))
}

/// Applies the Frobenius endomorphism once through the collaborator.
pub(crate) fn fp12_frobenius(a: &Fp12) -> (r: Fp12)
    ensures
        r == fp12_frobenius_s(*a),
        fp12_reduced(*a) ==> fp12_reduced(r),
        fp12_is_one(*a) ==> fp12_is_one(r),
{
    let (c0, c1) = fp12_frobenius_raw(&a.c0, &a.c1);
    Fp12 { c0, c1 }
}

/// Relies on `ark_ff::Field::inverse` on `Fq12`, handed the operand's two
/// sextic halves: on a reduced operand it returns `None` exactly on zero,
/// and the inverse of one is one. The collaborator's inversion is
/// unspecified on unreduced encodings, so they are excluded here.
#[verifier::external_body]
fn fp12_invert_raw(a0: &Fp6, a1: &Fp6) -> (r: Option<(Fp6, Fp6)>)
    requires
        fp12_reduced(Fp12 { c0: *a0, c1: *a1 }),
    ensures
        ({
            let v = fp12_invert_s((Fp12 { c0: *a0, c1: *a1 }));
            !fp12_is_zero((Fp12 { c0: *a0, c1: *a1 })) ==> r == Some((v.c0, v.c1))
        }),
        fp12_is_zero((Fp12 { c0: *a0, c1: *a1 })) ==> r is None,
        fp12_is_one((Fp12 { c0: *a0, c1: *a1 })) ==> fp6_pair_is_one(r),
        r matches Some(v) ==> fp12_reduced(Fp12 { c0: v.0, c1: v.1 }),
{
    let d = |x: Fp2| Fq2::new(Fq::new_unchecked(BigInt(x.a)), Fq::new_unchecked(BigInt(x.b)));
    let t = |x: &Fp6| Fq6::new(d(x.c0), d(x.c1), d(x.c2));
    let z = Fq12::new(t(a0), t(a1)).inverse();
    let e = |x: Fq2| Fp2 { a: x.c0.0 .0, b: x.c1.0 .0 };
    let s = |x: Fq6| Fp6 { c0: e(x.c0), c1: e(x.c1), c2: e(x.c2) };
    z.map(|v| (s(v.c0), s(v.c1)))
}

/// Inverts a reduced degree-12 value through the collaborator, `None`
/// exactly on zero.
pub(crate) fn fp12_invert(a: &Fp12) -> (r: Option<Fp12>)
    requires
        fp12_reduced(*a),
    ensures
        !fp12_is_zero(*a) ==> r == Some(fp12_invert_s(*a)),
        fp12_is_zero(*a) ==> r is None,
        fp12_is_one(*a) ==> fp12_opt_is_one(r),
        r matches Some(v) ==> fp12_reduced(v),
{
    proof {
        assert(*a == (Fp12 { c0: a.c0, c1: a.c1 }));
    }
    match fp12_invert_raw(&a.c0, &a.c1) {
        Some((c0, c1)) => {
            proof {
                assert(fp12_invert_s(*a) == (Fp12 {
                    c0: fp12_invert_s(*a).c0,
                    c1: fp12_invert_s(*a).c1,
                }));
            }
            Some(Fp12 { c0, c1 })
        },
        None => None,
    }
}

/// Relies on `ark_ff::Fp12::mul_by_014`, the sparse multiplication by an
/// element with nonzero components only in slots 0, 1 and 4, handed the
/// accumulator's two sextic halves.
#[verifier::external_body]
fn fp12_mul_by_014_raw(f0: &Fp6, f1: &Fp6, c0: Fp2, c1: Fp2, c4: Fp2) -> (r: (Fp6, Fp6))
    ensures
        ({
            let v = fp12_mul_by_014_s((Fp12 { c0: *f0, c1: *f1 }), c0, c1, c4);
            r.0 == v.c0 && r.1 == v.c1
        }),
        fp12_reduced((Fp12 { c0: *f0, c1: *f1 })) && fp2_reduced(c0) && fp2_reduced(c1)
            && fp2_reduced(c4) ==> fp12_reduced((Fp12 { c0: r.0, c1: r.1 })),
{
    let d = |x: Fp2| Fq2::new(Fq::new_unchecked(BigInt(x.a)), Fq::new_unchecked(BigInt(x.b)));
    let t = |x: &Fp6| Fq6::new(d(x.c0), d(x.c1), d(x.c2));
    let mut z = Fq12::new(t(f0), t(f1));
    z.mul_by_014(&d(c0), &d(c1), &d(c4));
    let e = |x: Fq2| Fp2 { a: x.c0.0 .0, b: x.c1.0 .0 };
    let s = |x: Fq6| Fp6 { c0: e(x.c0), c1: e(x.c1), c2: e(x.c2) };
    (s(z.c0), s(z.c1))
}

/// Sparse multiplication of the accumulator by a line value through the
/// collaborator.
pub(crate) fn fp12_mul_by_014(f: &Fp12, c0: &Fp2, c1: &Fp2, c4: &Fp2) -> (r: Fp12)
    ensures
        r == fp12_mul_by_014_s(*f, *c0, *c1, *c4),
        fp12_reduced(*f) && fp2_reduced(*c0) && fp2_reduced(*c1) && fp2_reduced(*c4)
            ==> fp12_reduced(r),
{
    let (r0, r1) = fp12_mul_by_014_raw(&f.c0, &f.c1, *c0, *c1, *c4);
    proof {
        assert(fp12_mul_by_014_s(*f, *c0, *c1, *c4) == (Fp12 {
            c0: fp12_mul_by_014_s(*f, *c0, *c1, *c4).c0,
            c1: fp12_mul_by_014_s(*f, *c0, *c1, *c4).c1,
        }));
    }
    Fp12 { c0: r0, c1: r1 }
}

/// Relies on `ark_ff::Zero::is_zero` on `Fq12`, which holds exactly when
/// every coordinate is zero.
#[verifier::external_body]
pub(crate) fn fp12_zero_test(a: &Fp12) -> (r: bool)
    ensures
        r == fp12_is_zero(*a),
{
    let d = |x: Fp2| Fq2::new(Fq::new_unchecked(BigInt(x.a)), Fq::new_unchecked(BigInt(x.b)));
    let t = |x: &Fp6| Fq6::new(d(x.c0), d(x.c1), d(x.c2));
    Fq12::new(t(&a.c0), t(&a.c1)).is_zero()
}

/// Relies on `ark_ff::UniformRand::rand` for `Fq12` with the operating
/// system's entropy source. Nothing is promised of the value drawn beyond
/// its being in reduced form.
#[verifier::external_body]
pub(crate) fn fp12_random() -> (r: Fp12)
    ensures
        fp12_reduced(r),
{
    let mut rng = rand::rngs::OsRng;
    let z = Fq12::rand(&mut rng);
    let e = |x: Fq2| Fp2 { a: x.c0.0 .0, b: x.c1.0 .0 };
    let s = |x: Fq6| Fp6 { c0: e(x.c0), c1: e(x.c1), c2: e(x.c2) };
    Fp12 { c0: s(z.c0), c1: s(z.c1) }
}

/// Builds the multiplicative identity of the degree-12 extension from the
/// identities of the quadratic extension.
pub(crate) fn fp12_one() -> (r: Fp12)
    ensures
        fp12_is_one(r),
        !fp12_is_zero(r),
        fp12_reduced(r),
        forall|x: Fp12| fp12_is_one(x) ==> x == r,
        r == fp12_one_v(),
{
    let one = fp2_one();
    let zero = fp2_zero();
    let r = Fp12 {
        c0: Fp6 { c0: one, c1: zero, c2: zero },
        c1: Fp6 { c0: zero, c1: zero, c2: zero },
    };
    proof {
        assert forall|x: Fp12| fp12_is_one(x) implies x == r by {
            assert(x.c0.c0 == one);
            assert(x.c0.c1 == zero);
            assert(x.c0.c2 == zero);
            assert(x.c1.c0 == zero);
            assert(x.c1.c1 == zero);
            assert(x.c1.c2 == zero);
        }
        assert(exists|x: Fp12| fp12_is_one(x)) by {
            assert(fp12_is_one(r));
        }
        assert(fp12_is_one(fp12_one_v()));
    }
    r
}

/// The or-accumulated difference of two limb arrays: zero exactly when
/// they are equal, computed without branching on the data.
pub(crate) fn limbs_diff(a: &[u64; 6], b: &[u64; 6]) -> (d: u64)
    ensures
        (d == 0) == (*a == *b),
{
    let x0 = a[0] ^ b[0];
    let x1 = a[1] ^ b[1];
    let x2 = a[2] ^ b[2];
    let x3 = a[3] ^ b[3];
    let x4 = a[4] ^ b[4];
    let x5 = a[5] ^ b[5];
    let d = x0 | x1 | x2 | x3 | x4 | x5;
    proof {
        broadcast use vstd::array::group_array_axioms;

        let a0 = a[0];
        let a1 = a[1];
        let a2 = a[2];
        let a3 = a[3];
        let a4 = a[4];
        let a5 = a[5];
        let b0 = b[0];
        let b1 = b[1];
        let b2 = b[2];
        let b3 = b[3];
        let b4 = b[4];
        let b5 = b[5];
        assert((((a0 ^ b0) | (a1 ^ b1) | (a2 ^ b2) | (a3 ^ b3) | (a4 ^ b4) | (a5 ^ b5)) == 0)
            == (a0 == b0 && a1 == b1 && a2 == b2 && a3 == b3 && a4 == b4 && a5 == b5))
            by (bit_vector);
        if d == 0 {
            assert forall|i: int| 0 <= i < 6 implies a[i] == b[i] by {
                if i == 0 {
                } else if i == 1 {
                } else if i == 2 {
                } else if i == 3 {
                } else if i == 4 {
                } else {
                    assert(i == 5);
                }
            }
            assert(*a =~= *b);
        }
    }
    d
}

/// The or-accumulated difference of two `Fp2` values.
pub(crate) fn fp2_diff(a: &Fp2, b: &Fp2) -> (d: u64)
    ensures
        (d == 0) == (*a == *b),
{
    let da = limbs_diff(&a.a, &b.a);
    let db = limbs_diff(&a.b, &b.b);
    let d = da | db;
    proof {
        assert(((da | db) == 0) == (da == 0 && db == 0)) by (bit_vector);
    }
    d
}

/// Component-wise equality of two quadratic-extension elements, with all
/// differences accumulated before the single comparison.
pub(crate) fn fp2_eq(a: &Fp2, b: &Fp2) -> (r: bool)
    ensures
        r == (*a == *b),
{
    fp2_diff(a, b) == 0
}

/// Component-wise equality of two degree-12 extension elements, with all
/// differences accumulated before the single comparison.
pub(crate) fn fp12_eq(a: &Fp12, b: &Fp12) -> (r: bool)
    ensures
        r == (*a == *b),
{
    let d0 = fp2_diff(&a.c0.c0, &b.c0.c0);
    let d1 = fp2_diff(&a.c0.c1, &b.c0.c1);
    let d2 = fp2_diff(&a.c0.c2, &b.c0.c2);
    let d3 = fp2_diff(&a.c1.c0, &b.c1.c0);
    let d4 = fp2_diff(&a.c1.c1, &b.c1.c1);
    let d5 = fp2_diff(&a.c1.c2, &b.c1.c2);
    let d = d0 | d1 | d2 | d3 | d4 | d5;
    proof {
        assert(((d0 | d1 | d2 | d3 | d4 | d5) == 0) == (d0 == 0 && d1 == 0 && d2 == 0 && d3 == 0
            && d4 == 0 && d5 == 0)) by (bit_vector);
    }
    d == 0
}

/// Selects between two 64-bit words without branching on the flag: the
/// flag is widened to a word and stretched into a full mask.
pub(crate) fn u64_select(a: u64, b: u64, choice: bool) -> (r: u64)
    ensures
        r == if choice { b } else { a },
{
    let cv: u64 = choice as u64;
    let m: u64 = 0u64.wrapping_sub(cv);
    let r = (a & !m) | (b & m);
    proof {
        if choice {
            assert(m == u64::MAX);
            assert(((a & !u64::MAX) | (b & u64::MAX)) == b) by (bit_vector);
        } else {
            assert(m == 0);
            assert(((a & !0u64) | (b & 0u64)) == a) by (bit_vector);
        }
    }
    r
}

/// The disjunction of two flags, accumulated on words rather than by a
/// short-circuiting branch.
pub(crate) fn bool_or(a: bool, b: bool) -> (r: bool)
    ensures
        r == (a || b),
{
    let x: u64 = a as u64;
    let y: u64 = b as u64;
    let z = x | y;
    proof {
        assert(((x | y) == 0) == (x == 0 && y == 0)) by (bit_vector);
    }
    z != 0
}

/// Masked selection between two flags, through the word-level mask.
pub(crate) fn bool_select(a: bool, b: bool, choice: bool) -> (r: bool)
    ensures
        r == if choice { b } else { a },
{
    u64_select(a as u64, b as u64, choice) != 0
}

/// Limb-wise masked selection between two limb arrays.
pub(crate) fn limbs_select(a: &[u64; 6], b: &[u64; 6], choice: bool) -> (r: [u64; 6])
    ensures
        r == if choice { *b } else { *a },
{
    let mut l = *a;
    l[0] = u64_select(a[0], b[0], choice);
    l[1] = u64_select(a[1], b[1], choice);
    l[2] = u64_select(a[2], b[2], choice);
    l[3] = u64_select(a[3], b[3], choice);
    l[4] = u64_select(a[4], b[4], choice);
    l[5] = u64_select(a[5], b[5], choice);
    proof {
        broadcast use vstd::array::group_array_axioms;

        if choice {
            assert(l =~= *b);
        } else {
            assert(l =~= *a);
        }
    }
    l
}

/// Masked selection between two base-field elements.
pub(crate) fn fp_select(a: &Fp, b: &Fp, choice: bool) -> (r: Fp)
    ensures
        r == if choice { *b } else { *a },
{
    Fp { l: limbs_select(&a.l, &b.l, choice) }
}

/// Masked selection between two `Fp2` values.
pub(crate) fn fp2_select(a: &Fp2, b: &Fp2, choice: bool) -> (r: Fp2)
    ensures
        r == if choice { *b } else { *a },
{
    Fp2 { a: limbs_select(&a.a, &b.a, choice), b: limbs_select(&a.b, &b.b, choice) }
}

/// Masked selection between two `Fp6` values.
pub(crate) fn fp6_select(a: &Fp6, b: &Fp6, choice: bool) -> (r: Fp6)
    ensures
        r == if choice { *b } else { *a },
{
    Fp6 {
        c0: fp2_select(&a.c0, &b.c0, choice),
        c1: fp2_select(&a.c1, &b.c1, choice),
        c2: fp2_select(&a.c2, &b.c2, choice),
    }
}

/// Masked selection between two `Fp12` values.
pub(crate) fn fp12_select(a: &Fp12, b: &Fp12, choice: bool) -> (r: Fp12)
    ensures
        r == if choice { *b } else { *a },
{
    Fp12 { c0: fp6_select(&a.c0, &b.c0, choice), c1: fp6_select(&a.c1, &b.c1, choice) }
}

} // verus!
