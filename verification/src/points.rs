//! Carrier types for the two source groups.
//!
//! The elliptic-curve group law itself is an outside collaborator; the
//! pairing engine only reads affine coordinates, tracks a projective working
//! point through the line-function formulas, and substitutes the fixed
//! generators when an operand is the group identity. Points are held as
//! plain coordinate values so that all of that logic is verified.

use vstd::prelude::*;

verus! {

use ark_ec::AffineRepr;
use crate::fp::Fp;
use crate::fp::Fp2;
use crate::fp::fp_reduced;
use crate::fp::fp2_reduced;
use crate::fp::fp_select;
use crate::fp::fp2_select;
use crate::fp::bool_select;
use crate::fp::fp2_one;

/// An affine point of the first source group: base-field coordinates and an
/// identity flag.
#[derive(Clone, Copy, PartialEq, Eq, Debug)]
pub struct G1Affine {
    pub x: Fp,
    pub y: Fp,
    pub infinity: bool,
}

/// An affine point of the second source group: quadratic-extension
/// coordinates and an identity flag.
#[derive(Clone, Copy, PartialEq, Eq, Debug)]
pub struct G2Affine {
    pub x: Fp2,
    pub y: Fp2,
    pub infinity: bool,
}

/// Whether a first-group point's coordinates are in reduced form.
pub open spec fn g1a_wf(p: G1Affine) -> bool {
    fp_reduced(p.x) && fp_reduced(p.y)
}

/// Whether a second-group point's coordinates are in reduced form.
pub open spec fn g2a_wf(q: G2Affine) -> bool {
    fp2_reduced(q.x) && fp2_reduced(q.y)
}

/// The projective working point the Miller loop's line formulas evolve.
#[derive(Clone, Copy, PartialEq, Eq, Debug)]
pub struct G2Projective {
    pub x: Fp2,
    pub y: Fp2,
    pub z: Fp2,
}

impl G1Affine {
    /// Wraps raw coordinate limbs handed in by a caller that obtained them
    /// from the curve-point collaborator.
    pub fn from_coordinates(x: Fp, y: Fp, infinity: bool) -> (r: G1Affine)
        ensures
            r == (G1Affine { x, y, infinity }),
    {
        G1Affine { x, y, infinity }
    }

    /// Whether this point is the group identity.
    pub fn is_identity(&self) -> (r: bool)
        ensures
            r == self.infinity,
    {
        self.infinity
    }
}

impl G2Affine {
    /// Wraps raw coordinate limbs handed in by a caller that obtained them
    /// from the curve-point collaborator.
    pub fn from_coordinates(x: Fp2, y: Fp2, infinity: bool) -> (r: G2Affine)
        ensures
            r == (G2Affine { x, y, infinity }),
    {
        G2Affine { x, y, infinity }
    }

    /// Whether this point is the group identity.
    pub fn is_identity(&self) -> (r: bool)
        ensures
            r == self.infinity,
    {
        self.infinity
    }
}

/// Whether a projective working point's coordinates are in reduced form.
pub open spec fn g2p_wf(r: G2Projective) -> bool {
    fp2_reduced(r.x) && fp2_reduced(r.y) && fp2_reduced(r.z)
}

/// The projective form of an affine point: `z` is one.
pub open spec fn g2_projective_of(q: G2Affine) -> G2Projective {
    G2Projective { x: q.x, y: q.y, z: crate::fp::fp2_one_v() }
}

/// Lifts an affine point to the projective working form.
pub(crate) fn g2_to_projective(q: &G2Affine) -> (r: G2Projective)
    ensures
        r == g2_projective_of(*q),
        crate::fp::fp2_is_one(r.z),
        crate::fp::fp2_reduced(r.z),
{
    let one = fp2_one();
    proof {
        assert(exists|o: Fp2| crate::fp::fp2_is_one(o)) by {
            assert(crate::fp::fp2_is_one(one));
        }
        assert(crate::fp::fp2_is_one(crate::fp::fp2_one_v()));
    }
    G2Projective { x: q.x, y: q.y, z: one }
}

/// Whether a point is the fixed generator of the first source group.
pub uninterp spec fn is_g1_gen(p: G1Affine) -> bool;

/// The fixed generator of the first source group, as a value.
pub open spec fn g1_generator_v() -> G1Affine {
    choose|g: G1Affine| is_g1_gen(g)
}

/// Relies on `ark_ec::AffineRepr::generator` for the first group: the one
/// fixed generator point, which is not the identity.
#[verifier::external_body]
pub(crate) fn g1_generator() -> (r: G1Affine)
    ensures
        r.infinity == false,
        g1a_wf(r),
        is_g1_gen(r),
        forall|x: G1Affine| is_g1_gen(x) ==> x == r,
{
    let g = ark_bls12_381::G1Affine::generator();
    let w = |x: &ark_bls12_381::Fq| Fp { l: (x.0).0 };
    G1Affine { x: w(&g.x), y: w(&g.y), infinity: g.infinity }
}

/// Whether a point is the fixed generator of the second source group.
pub uninterp spec fn is_g2_gen(p: G2Affine) -> bool;

/// The fixed generator of the second source group, as a value.
pub open spec fn g2_generator_v() -> G2Affine {
    choose|g: G2Affine| is_g2_gen(g)
}

/// Relies on `ark_ec::AffineRepr::generator` for the second group: the one
/// fixed generator point, which is not the identity.
#[verifier::external_body]
pub(crate) fn g2_generator() -> (r: G2Affine)
    ensures
        r.infinity == false,
        g2a_wf(r),
        is_g2_gen(r),
        forall|x: G2Affine| is_g2_gen(x) ==> x == r,
{
    let g = ark_bls12_381::G2Affine::generator();
    let e = |x: &ark_bls12_381::Fq2| Fp2 { a: (x.c0.0).0, b: (x.c1.0).0 };
    G2Affine { x: e(&g.x), y: e(&g.y), infinity: g.infinity }
}

/// Masked selection between two first-group points.
pub(crate) fn g1_select(a: &G1Affine, b: &G1Affine, choice: bool) -> (r: G1Affine)
    ensures
        r == if choice { *b } else { *a },
{
    G1Affine {
        x: fp_select(&a.x, &b.x, choice),
        y: fp_select(&a.y, &b.y, choice),
        infinity: bool_select(a.infinity, b.infinity, choice),
    }
}

/// Masked selection between two second-group points.
pub(crate) fn g2_select(a: &G2Affine, b: &G2Affine, choice: bool) -> (r: G2Affine)
    ensures
        r == if choice { *b } else { *a },
{
    G2Affine {
        x: fp2_select(&a.x, &b.x, choice),
        y: fp2_select(&a.y, &b.y, choice),
        infinity: bool_select(a.infinity, b.infinity, choice),
    }
}

} // verus!
