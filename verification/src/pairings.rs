//! The pairing drivers, the `G2Prepared` cache, multi-pairing batching, and
//! the final exponentiation.
//!
//! Three concrete drivers instantiate the generic Miller-loop engine: the
//! direct single-pair accumulator behind `pairing`, the coefficient-caching
//! accumulator behind `G2Prepared::from`, and the multi-term batch
//! accumulator behind `multi_miller_loop`. Identity operands are handled by
//! masked generator substitution, never by branching on the operand.

use vstd::prelude::*;

verus! {

use crate::engine::MillerLoopDriver;
use crate::engine::BLS_X;
use crate::engine::bls_bit;
use crate::engine::ml_scan;
use crate::engine::miller_loop;
use crate::engine::miller_loop_s;
use crate::fp::Fp2;
use crate::fp::Fp6;
use crate::fp::Fp12;
use crate::fp::fp2_add;
use crate::fp::fp2_sub;
use crate::fp::fp2_square;
use crate::fp::fp2_mul_by_nonresidue;
use crate::fp::fp2_add_s;
use crate::fp::fp2_sub_s;
use crate::fp::fp2_square_s;
use crate::fp::fp2_mul_by_nonresidue_s;
use crate::fp::fp12_mul;
use crate::fp::fp12_mul_s;
use crate::fp::fp12_square;
use crate::fp::fp12_square_s;
use crate::fp::fp12_conjugate;
use crate::fp::fp12_conjugate_s;
use crate::fp::fp12_frobenius;
use crate::fp::fp12_frobenius_s;
use crate::fp::fp12_invert;
use crate::fp::fp12_invert_s;
use crate::fp::fp12_one;
use crate::fp::fp12_one_v;
use crate::fp::fp12_is_one;
use crate::fp::fp12_is_zero;
use crate::fp::fp12_reduced;
use crate::fp::fp12_select;
use crate::fp::bool_or;
use crate::lines::doubling_step_s;
use crate::lines::addition_step_s;
use crate::lines::ell;
use crate::lines::ell_s;
use crate::points::G1Affine;
use crate::points::G2Affine;
use crate::points::G2Projective;
use crate::points::g1_generator;
use crate::points::g2_generator;
use crate::points::g1_select;
use crate::points::g2_select;
use crate::points::g2_to_projective;
use crate::points::g2_projective_of;
use crate::points::is_g2_gen;
use crate::points::g2_generator_v;
use crate::points::g1a_wf;
use crate::points::g2a_wf;
use crate::points::g2p_wf;
use crate::lines::coeffs_wf;
use crate::gt::Gt;

/// The unfinalized output of one or more Miller loops, combined
/// multiplicatively. Two raw values must never be compared: distinct raw
/// values may finalize to the same target-group element. Only accumulation
/// and `final_exponentiation` are meaningful.
#[derive(Clone, Copy, Debug)]
pub struct MillerLoopResult(pub Fp12);

impl Default for MillerLoopResult {
    /// The empty accumulation: the multiplicative identity.
    fn default() -> (r: MillerLoopResult)
        ensures
            fp12_is_one(r.0),
            r.0 == fp12_one_v(),
            fp12_reduced(r.0),
    {
        MillerLoopResult(fp12_one())
    }
}

impl core::ops::Add<MillerLoopResult> for MillerLoopResult {
    type Output = MillerLoopResult;

    /// Accumulation of unfinalized results multiplies the raw values.
    fn add(self, rhs: MillerLoopResult) -> (r: MillerLoopResult)
        ensures
            r.0 == fp12_mul_s(self.0, rhs.0),
            fp12_reduced(self.0) && fp12_reduced(rhs.0) ==> fp12_reduced(r.0),
    {
        MillerLoopResult(fp12_mul(&self.0, &rhs.0))
    }
}

impl vstd::std_specs::ops::AddSpecImpl<MillerLoopResult> for MillerLoopResult {
    open spec fn obeys_add_spec() -> bool {
        true
    }

    open spec fn add_req(self, rhs: MillerLoopResult) -> bool {
        true
    }

    open spec fn add_spec(self, rhs: MillerLoopResult) -> MillerLoopResult {
        MillerLoopResult(fp12_mul_s(self.0, rhs.0))
    }
}

/// One "fp4 square" of the fast cyclotomic squaring: the pair of quadratic
/// extension values it produces from a pair.
pub open spec fn fp4_square_s(a: Fp2, b: Fp2) -> (Fp2, Fp2) {
    let t0 = fp2_square_s(a);
    let t1 = fp2_square_s(b);
    let t2 = fp2_mul_by_nonresidue_s(t1);
    let c0 = fp2_add_s(t2, t0);
    let t2b = fp2_add_s(a, b);
    let t2c = fp2_square_s(t2b);
    let t2d = fp2_sub_s(t2c, t0);
    let c1 = fp2_sub_s(t2d, t1);
    (c0, c1)
}

fn fp4_square(a: &Fp2, b: &Fp2) -> (r: (Fp2, Fp2))
    ensures
        r == fp4_square_s(*a, *b),
        crate::fp::fp2_is_one(*a) && crate::fp::fp2_is_zero(*b) ==> crate::fp::fp2_is_one(r.0)
            && crate::fp::fp2_is_zero(r.1),
        crate::fp::fp2_is_zero(*a) && crate::fp::fp2_is_zero(*b) ==> crate::fp::fp2_is_zero(r.0)
            && crate::fp::fp2_is_zero(r.1),
{
    let t0 = fp2_square(a);
    let t1 = fp2_square(b);
    let t2 = fp2_mul_by_nonresidue(&t1);
    let c0 = fp2_add(&t2, &t0);
    let t2 = fp2_add(a, b);
    let t2 = fp2_square(&t2);
    let t2 = fp2_sub(&t2, &t0);
    let c1 = fp2_sub(&t2, &t1);
    (c0, c1)
}

/// The fast squaring formula valid for unitary elements of the cyclotomic
/// subgroup, built from three "fp4 squares" of the six quadratic
/// components.
pub open spec fn cyclotomic_square_s(f: Fp12) -> Fp12 {
    let z0 = f.c0.c0;
    let z4 = f.c0.c1;
    let z3 = f.c0.c2;
    let z2 = f.c1.c0;
    let z1 = f.c1.c1;
    let z5 = f.c1.c2;
    let t01 = fp4_square_s(z0, z1);
    let z0b = fp2_sub_s(t01.0, z0);
    let z0c = fp2_add_s(fp2_add_s(z0b, z0b), t01.0);
    let z1b = fp2_add_s(t01.1, z1);
    let z1c = fp2_add_s(fp2_add_s(z1b, z1b), t01.1);
    let t23 = fp4_square_s(z2, z3);
    let t45 = fp4_square_s(z4, z5);
    let z4b = fp2_sub_s(t23.0, z4);
    let z4c = fp2_add_s(fp2_add_s(z4b, z4b), t23.0);
    let z5b = fp2_add_s(t23.1, z5);
    let z5c = fp2_add_s(fp2_add_s(z5b, z5b), t23.1);
    let t0n = fp2_mul_by_nonresidue_s(t45.1);
    let z2b = fp2_add_s(t0n, z2);
    let z2c = fp2_add_s(fp2_add_s(z2b, z2b), t0n);
    let z3b = fp2_sub_s(t45.0, z3);
    let z3c = fp2_add_s(fp2_add_s(z3b, z3b), t45.0);
    Fp12 { c0: Fp6 { c0: z0c, c1: z4c, c2: z3c }, c1: Fp6 { c0: z2c, c1: z1c, c2: z5c } }
}

fn cyclotomic_square(f: &Fp12) -> (r: Fp12)
    ensures
        r == cyclotomic_square_s(*f),
        fp12_is_one(*f) ==> fp12_is_one(r),
{
    let t01 = fp4_square(&f.c0.c0, &f.c1.c1);
    let z0 = fp2_sub(&t01.0, &f.c0.c0);
    let z0 = fp2_add(&fp2_add(&z0, &z0), &t01.0);
    let z1 = fp2_add(&t01.1, &f.c1.c1);
    let z1 = fp2_add(&fp2_add(&z1, &z1), &t01.1);
    let t23 = fp4_square(&f.c1.c0, &f.c0.c2);
    let t45 = fp4_square(&f.c0.c1, &f.c1.c2);
    let z4 = fp2_sub(&t23.0, &f.c0.c1);
    let z4 = fp2_add(&fp2_add(&z4, &z4), &t23.0);
    let z5 = fp2_add(&t23.1, &f.c1.c2);
    let z5 = fp2_add(&fp2_add(&z5, &z5), &t23.1);
    let t0n = fp2_mul_by_nonresidue(&t45.1);
    let z2 = fp2_add(&t0n, &f.c1.c0);
    let z2 = fp2_add(&fp2_add(&z2, &z2), &t0n);
    let z3 = fp2_sub(&t45.0, &f.c0.c2);
    let z3 = fp2_add(&fp2_add(&z3, &z3), &t45.0);
    Fp12 { c0: Fp6 { c0: z0, c1: z4, c2: z3 }, c1: Fp6 { c0: z2, c1: z1, c2: z5 } }
}

/// Bit `i` of the raw curve parameter.
pub open spec fn x_bit(i: int) -> bool {
    (BLS_X >> (i as u64)) & 1u64 == 1u64
}

/// The scan of the cyclotomic exponentiation by the curve parameter's
/// magnitude: square once the leading set bit has been seen, multiply in
/// the base on every set bit.
pub open spec fn cyc_exp_scan(tmp: Fp12, f: Fp12, found_one: bool, i: int) -> Fp12
    decreases i + 1,
{
    if i < 0 {
        tmp
    } else {
        let t1 = if found_one {
            cyclotomic_square_s(tmp)
        } else {
            tmp
        };
        let found2 = found_one || x_bit(i);
        let t2 = if x_bit(i) {
            fp12_mul_s(t1, f)
        } else {
            t1
        };
        cyc_exp_scan(t2, f, found2, i - 1)
    }
}

/// Exponentiation of a unitary element by the curve parameter: the bit scan
/// followed by the conjugation that accounts for the parameter's sign.
pub open spec fn cyc_exp_s(f: Fp12) -> Fp12 {
    fp12_conjugate_s(cyc_exp_scan(fp12_one_v(), f, false, 63))
}

fn cyclotomic_exp(f: &Fp12) -> (r: Fp12)
    ensures
        r == cyc_exp_s(*f),
        fp12_is_one(*f) ==> fp12_is_one(r),
{
    let mut tmp = fp12_one();
    let mut found_one = false;
    let mut b: usize = 64;
    while b > 0
        invariant
            b <= 64,
            cyc_exp_scan(tmp, *f, found_one, b as int - 1) == cyc_exp_scan(
                fp12_one_v(),
                *f,
                false,
                63,
            ),
            fp12_is_one(*f) ==> fp12_is_one(tmp),
        decreases b,
    {
        b = b - 1;
        let ghost pre_tmp = tmp;
        let ghost pre_found = found_one;
        let bit = (BLS_X >> (b as u64)) & 1 == 1;
        proof {
            assert(bit == x_bit(b as int));
        }
        if found_one {
            tmp = cyclotomic_square(&tmp);
        } else {
            found_one = bit;
        }
        if bit {
            tmp = fp12_mul(&tmp, f);
        }
        proof {
            assert(cyc_exp_scan(pre_tmp, *f, pre_found, b as int) == cyc_exp_scan(
                tmp,
                *f,
                found_one,
                b as int - 1,
            ));
        }
    }
    proof {
        assert(cyc_exp_scan(tmp, *f, found_one, -1) == tmp);
    }
    fp12_conjugate(&tmp)
}

/// The whole final exponentiation: the Frobenius-based easy part followed
/// by the published addition chain of cyclotomic exponentiations for the
/// hard part.
pub open spec fn final_exp_s(f: Fp12) -> Fp12 {
    let t0 = fp12_frobenius_s(
        fp12_frobenius_s(
            fp12_frobenius_s(fp12_frobenius_s(fp12_frobenius_s(fp12_frobenius_s(f)))),
        ),
    );
    let t1 = fp12_invert_s(f);
    let t2 = fp12_mul_s(t0, t1);
    let t1b = t2;
    let t2b = fp12_mul_s(fp12_frobenius_s(fp12_frobenius_s(t2)), t1b);
    let t1c = fp12_conjugate_s(cyclotomic_square_s(t2b));
    let t3 = cyc_exp_s(t2b);
    let t4 = cyclotomic_square_s(t3);
    let t5 = fp12_mul_s(t1c, t3);
    let t1d = cyc_exp_s(t5);
    let t0b = cyc_exp_s(t1d);
    let t6 = cyc_exp_s(t0b);
    let t6b = fp12_mul_s(t6, t4);
    let t4b = cyc_exp_s(t6b);
    let t5b = fp12_conjugate_s(t5);
    let t4c = fp12_mul_s(t4b, fp12_mul_s(t5b, t2b));
    let t5c = fp12_conjugate_s(t2b);
    let t1e = fp12_mul_s(t1d, t2b);
    let t1f = fp12_frobenius_s(fp12_frobenius_s(fp12_frobenius_s(t1e)));
    let t6c = fp12_mul_s(t6b, t5c);
    let t6d = fp12_frobenius_s(t6c);
    let t3b = fp12_mul_s(t3, t0b);
    let t3c = fp12_frobenius_s(fp12_frobenius_s(t3b));
    let t3d = fp12_mul_s(t3c, t1f);
    let t3e = fp12_mul_s(t3d, t6d);
    fp12_mul_s(t3e, t4c)
}

impl MillerLoopResult {
    /// Projects a raw Miller-loop value into the target group. The raw
    /// value must be in reduced form, as every value this library builds
    /// is; a raw value of zero never arises from a Miller loop, and the
    /// identity result on that dead branch keeps the function total.
    pub fn final_exponentiation(&self) -> (r: Gt)
        requires
            fp12_reduced(self.0),
        ensures
            !fp12_is_zero(self.0) ==> r.0 == final_exp_s(self.0),
            fp12_is_zero(self.0) ==> fp12_is_one(r.0),
            fp12_is_one(self.0) ==> fp12_is_one(r.0) && r.0 == fp12_one_v(),
    {
        // pins the identity case of the contract to the canonical one
        let _one = fp12_one();
        let t0 = fp12_frobenius(&self.0);
        let t0 = fp12_frobenius(&t0);
        let t0 = fp12_frobenius(&t0);
        let t0 = fp12_frobenius(&t0);
        let t0 = fp12_frobenius(&t0);
        let t0 = fp12_frobenius(&t0);
        match fp12_invert(&self.0) {
            Some(t1) => {
                let t2 = fp12_mul(&t0, &t1);
                let t1 = t2;
                let t2 = fp12_frobenius(&fp12_frobenius(&t2));
                let t2 = fp12_mul(&t2, &t1);
                let t1 = fp12_conjugate(&cyclotomic_square(&t2));
                let t3 = cyclotomic_exp(&t2);
                let t4 = cyclotomic_square(&t3);
                let t5 = fp12_mul(&t1, &t3);
                let t1 = cyclotomic_exp(&t5);
                let t0 = cyclotomic_exp(&t1);
                let t6 = cyclotomic_exp(&t0);
                let t6 = fp12_mul(&t6, &t4);
                let t4 = cyclotomic_exp(&t6);
                let t5c = fp12_conjugate(&t5);
                let t4 = fp12_mul(&t4, &fp12_mul(&t5c, &t2));
                let t5d = fp12_conjugate(&t2);
                let t1 = fp12_mul(&t1, &t2);
                let t1 = fp12_frobenius(&fp12_frobenius(&fp12_frobenius(&t1)));
                let t6 = fp12_mul(&t6, &t5d);
                let t6 = fp12_frobenius(&t6);
                let t3 = fp12_mul(&t3, &t0);
                let t3 = fp12_frobenius(&fp12_frobenius(&t3));
                let t3 = fp12_mul(&t3, &t1);
                let t3 = fp12_mul(&t3, &t6);
                Gt(fp12_mul(&t3, &t4))
            },
            None => Gt::identity(),
        }
    }
}

/// The direct single-pair driver: each step evaluates the line at the
/// fixed first-group point and folds it straight into the accumulator.
pub struct PairingAdder {
    pub cur: G2Projective,
    pub base: G2Affine,
    pub p: G1Affine,
}

/// Whether the direct driver's points are all in reduced form.
pub open spec fn pairing_adder_wf(m: PairingAdder) -> bool {
    g2p_wf(m.cur) && g2a_wf(m.base) && g1a_wf(m.p)
}

impl MillerLoopDriver for PairingAdder {
    type Output = Fp12;

    type Model = PairingAdder;

    open spec fn model(self) -> PairingAdder {
        self
    }

    open spec fn dbl_s(m: PairingAdder, f: Fp12) -> (PairingAdder, Fp12) {
        let st = doubling_step_s(m.cur);
        (PairingAdder { cur: st.0, base: m.base, p: m.p }, ell_s(f, st.1, m.p))
    }

    open spec fn add_s(m: PairingAdder, f: Fp12) -> (PairingAdder, Fp12) {
        let st = addition_step_s(m.cur, m.base);
        (PairingAdder { cur: st.0, base: m.base, p: m.p }, ell_s(f, st.1, m.p))
    }

    open spec fn sq_s(f: Fp12) -> Fp12 {
        fp12_square_s(f)
    }

    open spec fn conj_s(f: Fp12) -> Fp12 {
        fp12_conjugate_s(f)
    }

    open spec fn one_s() -> Fp12 {
        fp12_one_v()
    }

    open spec fn oinv(m: PairingAdder, f: Fp12) -> bool {
        pairing_adder_wf(m) && fp12_reduced(f)
    }

    fn doubling_step(&mut self, f: &mut Fp12) {
        let coeffs = crate::lines::doubling_step(&mut self.cur);
        let nf = ell(f, &coeffs, &self.p);
        *f = nf;
    }

    fn addition_step(&mut self, f: &mut Fp12) {
        let coeffs = crate::lines::addition_step(&mut self.cur, &self.base);
        let nf = ell(f, &coeffs, &self.p);
        *f = nf;
    }

    fn square_output(f: &mut Fp12) {
        let nf = fp12_square(f);
        *f = nf;
    }

    fn conjugate(f: &mut Fp12) {
        let nf = fp12_conjugate(f);
        *f = nf;
    }

    fn one() -> (r: Fp12) {
        fp12_one()
    }
}

/// The raw Miller-loop value of one pair of points, before any masking.
pub open spec fn pairing_s(p: G1Affine, q: G2Affine) -> Fp12 {
    miller_loop_s::<PairingAdder>(
        PairingAdder { cur: g2_projective_of(q), base: q, p },
    ).1
}

/// Computes the pairing of one point from each source group.
///
/// If either operand is the identity the result is the group identity;
/// the substitution happens through masked selection of the generators, so
/// the Miller loop always runs over well-formed points.
pub fn pairing(p: &G1Affine, q: &G2Affine) -> (r: Gt)
    requires
        g1a_wf(*p),
        g2a_wf(*q),
    ensures
        !p.infinity && !q.infinity && !fp12_is_zero(pairing_s(*p, *q)) ==> r.0 == final_exp_s(
            pairing_s(*p, *q),
        ),
        !p.infinity && !q.infinity && fp12_is_zero(pairing_s(*p, *q)) ==> fp12_is_one(r.0),
        p.infinity || q.infinity ==> fp12_is_one(r.0) && r.0 == fp12_one_v(),
{
    let p_identity = p.is_identity();
    let q_identity = q.is_identity();
    let either_identity = bool_or(p_identity, q_identity);
    let pg = g1_generator();
    let qg = g2_generator();
    let p1 = g1_select(p, &pg, either_identity);
    let q1 = g2_select(q, &qg, either_identity);
    let one = fp12_one();
    let mut adder = PairingAdder { cur: g2_to_projective(&q1), base: q1, p: p1 };
    proof {
        assert(fp12_reduced(fp12_one_v()));
        assert(PairingAdder::oinv(adder.model(), fp12_one_v()));
    }
    let tmp = miller_loop(&mut adder);
    let tmp2 = fp12_select(&tmp, &one, either_identity);
    let mlr = MillerLoopResult(tmp2);
    mlr.final_exponentiation()
}

/// The coefficient-caching driver behind `G2Prepared`: each step only
/// records this iteration's line coefficients.
pub struct PrepAdder {
    pub cur: G2Projective,
    pub base: G2Affine,
    pub coeffs: Vec<(Fp2, Fp2, Fp2)>,
}

impl MillerLoopDriver for PrepAdder {
    type Output = ();

    type Model = (G2Projective, G2Affine, Seq<(Fp2, Fp2, Fp2)>);

    open spec fn model(self) -> (G2Projective, G2Affine, Seq<(Fp2, Fp2, Fp2)>) {
        (self.cur, self.base, self.coeffs@)
    }

    open spec fn dbl_s(m: (G2Projective, G2Affine, Seq<(Fp2, Fp2, Fp2)>), f: ()) -> (
        (G2Projective, G2Affine, Seq<(Fp2, Fp2, Fp2)>),
        (),
    ) {
        let st = doubling_step_s(m.0);
        ((st.0, m.1, m.2.push(st.1)), f)
    }

    open spec fn add_s(m: (G2Projective, G2Affine, Seq<(Fp2, Fp2, Fp2)>), f: ()) -> (
        (G2Projective, G2Affine, Seq<(Fp2, Fp2, Fp2)>),
        (),
    ) {
        let st = addition_step_s(m.0, m.1);
        ((st.0, m.1, m.2.push(st.1)), f)
    }

    open spec fn sq_s(f: ()) -> () {
        f
    }

    open spec fn conj_s(f: ()) -> () {
        f
    }

    open spec fn one_s() -> () {
        ()
    }

    open spec fn oinv(m: (G2Projective, G2Affine, Seq<(Fp2, Fp2, Fp2)>), f: ()) -> bool {
        true
    }

    fn doubling_step(&mut self, f: &mut ()) {
        let coeffs = crate::lines::doubling_step(&mut self.cur);
        self.coeffs.push(coeffs);
    }

    fn addition_step(&mut self, f: &mut ()) {
        let coeffs = crate::lines::addition_step(&mut self.cur, &self.base);
        self.coeffs.push(coeffs);
    }

    fn square_output(f: &mut ()) {
    }

    fn conjugate(f: &mut ()) {
    }

    fn one() -> (r: ()) {
        ()
    }
}

/// How many coefficient triples the scan of bits `i, ..., 0` records: one
/// per doubling step and one more per set bit once the leading set bit has
/// been passed.
pub open spec fn scan_pushes(found_one: bool, i: int) -> int
    decreases i + 1,
{
    if i < 0 {
        0
    } else if !found_one {
        scan_pushes(bls_bit(i), i - 1)
    } else {
        (if bls_bit(i) {
            2int
        } else {
            1int
        }) + scan_pushes(true, i - 1)
    }
}

proof fn lemma_prep_scan_len(
    m: (G2Projective, G2Affine, Seq<(Fp2, Fp2, Fp2)>),
    found_one: bool,
    i: int,
)
    ensures
        ml_scan::<PrepAdder>(m, (), found_one, i).0.2.len() == m.2.len() + scan_pushes(
            found_one,
            i,
        ),
    decreases i + 1,
{
    if i < 0 {
    } else if !found_one {
        lemma_prep_scan_len(m, bls_bit(i), i - 1);
    } else {
        let s1 = PrepAdder::dbl_s(m, ());
        if bls_bit(i) {
            let s2 = PrepAdder::add_s(s1.0, s1.1);
            lemma_prep_scan_len(s2.0, true, i - 1);
        } else {
            lemma_prep_scan_len(s1.0, true, i - 1);
        }
    }
}

/// The scan over the whole loop word records exactly 67 coefficient
/// triples before the closing doubling step.
#[verifier::rlimit(60)]
proof fn lemma_scan_pushes_value()
    ensures
        scan_pushes(false, 63) == 67,
{
    assert(((0xd201_0000_0001_0000u64 >> 1u64) >> 0u64) & 1u64 == 0 &&
        ((0xd201_0000_0001_0000u64 >> 1u64) >> 1u64) & 1u64 == 0 &&
        ((0xd201_0000_0001_0000u64 >> 1u64) >> 2u64) & 1u64 == 0 &&
        ((0xd201_0000_0001_0000u64 >> 1u64) >> 3u64) & 1u64 == 0 &&
        ((0xd201_0000_0001_0000u64 >> 1u64) >> 4u64) & 1u64 == 0 &&
        ((0xd201_0000_0001_0000u64 >> 1u64) >> 5u64) & 1u64 == 0 &&
        ((0xd201_0000_0001_0000u64 >> 1u64) >> 6u64) & 1u64 == 0 &&
        ((0xd201_0000_0001_0000u64 >> 1u64) >> 7u64) & 1u64 == 0 &&
        ((0xd201_0000_0001_0000u64 >> 1u64) >> 8u64) & 1u64 == 0 &&
        ((0xd201_0000_0001_0000u64 >> 1u64) >> 9u64) & 1u64 == 0 &&
        ((0xd201_0000_0001_0000u64 >> 1u64) >> 10u64) & 1u64 == 0 &&
        ((0xd201_0000_0001_0000u64 >> 1u64) >> 11u64) & 1u64 == 0 &&
        ((0xd201_0000_0001_0000u64 >> 1u64) >> 12u64) & 1u64 == 0 &&
        ((0xd201_0000_0001_0000u64 >> 1u64) >> 13u64) & 1u64 == 0 &&
        ((0xd201_0000_0001_0000u64 >> 1u64) >> 14u64) & 1u64 == 0 &&
        ((0xd201_0000_0001_0000u64 >> 1u64) >> 15u64) & 1u64 == 1 &&
        ((0xd201_0000_0001_0000u64 >> 1u64) >> 16u64) & 1u64 == 0 &&
        ((0xd201_0000_0001_0000u64 >> 1u64) >> 17u64) & 1u64 == 0 &&
        ((0xd201_0000_0001_0000u64 >> 1u64) >> 18u64) & 1u64 == 0 &&
        ((0xd201_0000_0001_0000u64 >> 1u64) >> 19u64) & 1u64 == 0 &&
        ((0xd201_0000_0001_0000u64 >> 1u64) >> 20u64) & 1u64 == 0 &&
        ((0xd201_0000_0001_0000u64 >> 1u64) >> 21u64) & 1u64 == 0 &&
        ((0xd201_0000_0001_0000u64 >> 1u64) >> 22u64) & 1u64 == 0 &&
        ((0xd201_0000_0001_0000u64 >> 1u64) >> 23u64) & 1u64 == 0 &&
        ((0xd201_0000_0001_0000u64 >> 1u64) >> 24u64) & 1u64 == 0 &&
        ((0xd201_0000_0001_0000u64 >> 1u64) >> 25u64) & 1u64 == 0 &&
        ((0xd201_0000_0001_0000u64 >> 1u64) >> 26u64) & 1u64 == 0 &&
        ((0xd201_0000_0001_0000u64 >> 1u64) >> 27u64) & 1u64 == 0 &&
        ((0xd201_0000_0001_0000u64 >> 1u64) >> 28u64) & 1u64 == 0 &&
        ((0xd201_0000_0001_0000u64 >> 1u64) >> 29u64) & 1u64 == 0 &&
        ((0xd201_0000_0001_0000u64 >> 1u64) >> 30u64) & 1u64 == 0 &&
        ((0xd201_0000_0001_0000u64 >> 1u64) >> 31u64) & 1u64 == 0 &&
        ((0xd201_0000_0001_0000u64 >> 1u64) >> 32u64) & 1u64 == 0 &&
        ((0xd201_0000_0001_0000u64 >> 1u64) >> 33u64) & 1u64 == 0 &&
        ((0xd201_0000_0001_0000u64 >> 1u64) >> 34u64) & 1u64 == 0 &&
        ((0xd201_0000_0001_0000u64 >> 1u64) >> 35u64) & 1u64 == 0 &&
        ((0xd201_0000_0001_0000u64 >> 1u64) >> 36u64) & 1u64 == 0 &&
        ((0xd201_0000_0001_0000u64 >> 1u64) >> 37u64) & 1u64 == 0 &&
        ((0xd201_0000_0001_0000u64 >> 1u64) >> 38u64) & 1u64 == 0 &&
        ((0xd201_0000_0001_0000u64 >> 1u64) >> 39u64) & 1u64 == 0 &&
        ((0xd201_0000_0001_0000u64 >> 1u64) >> 40u64) & 1u64 == 0 &&
        ((0xd201_0000_0001_0000u64 >> 1u64) >> 41u64) & 1u64 == 0 &&
        ((0xd201_0000_0001_0000u64 >> 1u64) >> 42u64) & 1u64 == 0 &&
        ((0xd201_0000_0001_0000u64 >> 1u64) >> 43u64) & 1u64 == 0 &&
        ((0xd201_0000_0001_0000u64 >> 1u64) >> 44u64) & 1u64 == 0 &&
        ((0xd201_0000_0001_0000u64 >> 1u64) >> 45u64) & 1u64 == 0 &&
        ((0xd201_0000_0001_0000u64 >> 1u64) >> 46u64) & 1u64 == 0 &&
        ((0xd201_0000_0001_0000u64 >> 1u64) >> 47u64) & 1u64 == 1 &&
        ((0xd201_0000_0001_0000u64 >> 1u64) >> 48u64) & 1u64 == 0 &&
        ((0xd201_0000_0001_0000u64 >> 1u64) >> 49u64) & 1u64 == 0 &&
        ((0xd201_0000_0001_0000u64 >> 1u64) >> 50u64) & 1u64 == 0 &&
        ((0xd201_0000_0001_0000u64 >> 1u64) >> 51u64) & 1u64 == 0 &&
        ((0xd201_0000_0001_0000u64 >> 1u64) >> 52u64) & 1u64 == 0 &&
        ((0xd201_0000_0001_0000u64 >> 1u64) >> 53u64) & 1u64 == 0 &&
        ((0xd201_0000_0001_0000u64 >> 1u64) >> 54u64) & 1u64 == 0 &&
        ((0xd201_0000_0001_0000u64 >> 1u64) >> 55u64) & 1u64 == 0 &&
        ((0xd201_0000_0001_0000u64 >> 1u64) >> 56u64) & 1u64 == 1 &&
        ((0xd201_0000_0001_0000u64 >> 1u64) >> 57u64) & 1u64 == 0 &&
        ((0xd201_0000_0001_0000u64 >> 1u64) >> 58u64) & 1u64 == 0 &&
        ((0xd201_0000_0001_0000u64 >> 1u64) >> 59u64) & 1u64 == 1 &&
        ((0xd201_0000_0001_0000u64 >> 1u64) >> 60u64) & 1u64 == 0 &&
        ((0xd201_0000_0001_0000u64 >> 1u64) >> 61u64) & 1u64 == 1 &&
        ((0xd201_0000_0001_0000u64 >> 1u64) >> 62u64) & 1u64 == 1 &&
        ((0xd201_0000_0001_0000u64 >> 1u64) >> 63u64) & 1u64 == 0) by (bit_vector);
    assert(scan_pushes(true, -1) == 0);
    assert(scan_pushes(true, 0) == 1);
    assert(scan_pushes(true, 1) == 2);
    assert(scan_pushes(true, 2) == 3);
    assert(scan_pushes(true, 3) == 4);
    assert(scan_pushes(true, 4) == 5);
    assert(scan_pushes(true, 5) == 6);
    assert(scan_pushes(true, 6) == 7);
    assert(scan_pushes(true, 7) == 8);
    assert(scan_pushes(true, 8) == 9);
    assert(scan_pushes(true, 9) == 10);
    assert(scan_pushes(true, 10) == 11);
    assert(scan_pushes(true, 11) == 12);
    assert(scan_pushes(true, 12) == 13);
    assert(scan_pushes(true, 13) == 14);
    assert(scan_pushes(true, 14) == 15);
    assert(scan_pushes(true, 15) == 17);
    assert(scan_pushes(true, 16) == 18);
    assert(scan_pushes(true, 17) == 19);
    assert(scan_pushes(true, 18) == 20);
    assert(scan_pushes(true, 19) == 21);
    assert(scan_pushes(true, 20) == 22);
    assert(scan_pushes(true, 21) == 23);
    assert(scan_pushes(true, 22) == 24);
    assert(scan_pushes(true, 23) == 25);
    assert(scan_pushes(true, 24) == 26);
    assert(scan_pushes(true, 25) == 27);
    assert(scan_pushes(true, 26) == 28);
    assert(scan_pushes(true, 27) == 29);
    assert(scan_pushes(true, 28) == 30);
    assert(scan_pushes(true, 29) == 31);
    assert(scan_pushes(true, 30) == 32);
    assert(scan_pushes(true, 31) == 33);
    assert(scan_pushes(true, 32) == 34);
    assert(scan_pushes(true, 33) == 35);
    assert(scan_pushes(true, 34) == 36);
    assert(scan_pushes(true, 35) == 37);
    assert(scan_pushes(true, 36) == 38);
    assert(scan_pushes(true, 37) == 39);
    assert(scan_pushes(true, 38) == 40);
    assert(scan_pushes(true, 39) == 41);
    assert(scan_pushes(true, 40) == 42);
    assert(scan_pushes(true, 41) == 43);
    assert(scan_pushes(true, 42) == 44);
    assert(scan_pushes(true, 43) == 45);
    assert(scan_pushes(true, 44) == 46);
    assert(scan_pushes(true, 45) == 47);
    assert(scan_pushes(true, 46) == 48);
    assert(scan_pushes(true, 47) == 50);
    assert(scan_pushes(true, 48) == 51);
    assert(scan_pushes(true, 49) == 52);
    assert(scan_pushes(true, 50) == 53);
    assert(scan_pushes(true, 51) == 54);
    assert(scan_pushes(true, 52) == 55);
    assert(scan_pushes(true, 53) == 56);
    assert(scan_pushes(true, 54) == 57);
    assert(scan_pushes(true, 55) == 58);
    assert(scan_pushes(true, 56) == 60);
    assert(scan_pushes(true, 57) == 61);
    assert(scan_pushes(true, 58) == 62);
    assert(scan_pushes(true, 59) == 64);
    assert(scan_pushes(true, 60) == 65);
    assert(scan_pushes(true, 61) == 67);
    assert(scan_pushes(false, 62) == 67);
    assert(scan_pushes(false, 63) == 67);
}

/// The cached line coefficients of a non-identity second-group point.
pub open spec fn prep_coeffs_s(q: G2Affine) -> Seq<(Fp2, Fp2, Fp2)> {
    miller_loop_s::<PrepAdder>((g2_projective_of(q), q, Seq::empty())).0.2
}

/// Cached per-step line coefficients for a fixed second-group point,
/// computed once and reused across pairings. The cache always holds
/// exactly 68 triples, one per Miller-loop step; an identity input is
/// substituted by the generator during construction and recorded in the
/// `infinity` flag, which masks the terms out during batch folding.
#[derive(Clone, Debug)]
pub struct G2Prepared {
    pub(crate) infinity: bool,
    pub(crate) coeffs: Vec<(Fp2, Fp2, Fp2)>,
}

impl G2Prepared {
    /// The recorded identity flag of the source point.
    pub closed spec fn spec_infinity(self) -> bool {
        self.infinity
    }

    /// The recorded coefficient triples.
    pub closed spec fn spec_coeffs(self) -> Seq<(Fp2, Fp2, Fp2)> {
        self.coeffs@
    }
}

impl From<G2Affine> for G2Prepared {
    /// Runs the Miller loop with the coefficient-caching driver over the
    /// point (or, masked, over the generator when the point is the
    /// identity) and stores the 68 recorded triples.
    fn from(q: G2Affine) -> (r: G2Prepared)
        ensures
            r.spec_infinity() == q.infinity,
            r.spec_coeffs().len() == 68,
            !q.infinity ==> r.spec_coeffs() == prep_coeffs_s(q),
            q.infinity ==> r.spec_coeffs() == prep_coeffs_s(g2_generator_v()),
    {
        let is_identity = q.is_identity();
        let qg = g2_generator();
        proof {
            assert(exists|g: G2Affine| is_g2_gen(g)) by {
                assert(is_g2_gen(qg));
            }
            assert(is_g2_gen(g2_generator_v()));
            assert(qg == g2_generator_v());
        }
        let q2 = g2_select(&q, &qg, is_identity);
        let mut adder = PrepAdder {
            cur: g2_to_projective(&q2),
            base: q2,
            coeffs: Vec::new(),
        };
        let _u = miller_loop(&mut adder);
        proof {
            lemma_prep_scan_len(
                (g2_projective_of(q2), q2, Seq::<(Fp2, Fp2, Fp2)>::empty()),
                false,
                63,
            );
            lemma_scan_pushes_value();
        }
        G2Prepared { infinity: is_identity, coeffs: adder.coeffs }
    }
}

impl vstd::std_specs::convert::FromSpecImpl<G2Affine> for G2Prepared {
    open spec fn obeys_from_spec() -> bool {
        false
    }

    open spec fn from_spec(t: G2Affine) -> G2Prepared {
        arbitrary()
    }
}

/// Whether every term of a batch (or an empty batch) is masked by an
/// identity operand.
pub open spec fn all_masked(terms: Seq<(G1Affine, bool, Seq<(Fp2, Fp2, Fp2)>)>) -> bool {
    forall|t: int| 0 <= t < terms.len() ==> (#[trigger] terms[t]).0.infinity || terms[t].1
}

/// The batch driver's view of one term: the first-group point, whether the
/// term is masked as an identity on the second-group side, and the cached
/// coefficients.
pub open spec fn batch_model(terms: Seq<(&G1Affine, &G2Prepared)>) -> Seq<
    (G1Affine, bool, Seq<(Fp2, Fp2, Fp2)>),
> {
    Seq::new(terms.len(), |i: int| (*terms[i].0, terms[i].1.spec_infinity(), terms[i].1.spec_coeffs()))
}

/// One shared folding pass over all terms at step `idx`: a term whose
/// either operand is an identity contributes nothing; any other term folds
/// its cached coefficient for this step into the accumulator.
pub open spec fn batch_fold(
    terms: Seq<(G1Affine, bool, Seq<(Fp2, Fp2, Fp2)>)>,
    idx: int,
    f: Fp12,
    k: int,
) -> Fp12
    decreases terms.len() - k,
{
    if k < 0 || k >= terms.len() {
        f
    } else {
        let t = terms[k];
        let either_identity = t.0.infinity || t.1;
        let nf = if 0 <= idx < t.2.len() {
            if either_identity {
                f
            } else {
                ell_s(f, t.2[idx], t.0)
            }
        } else {
            f
        };
        batch_fold(terms, idx, nf, k + 1)
    }
}

/// The next step index: the scan makes exactly 68 steps, so the saturation
/// cap can never bind.
pub open spec fn bump_s(i: int) -> int {
    if i < usize::MAX {
        i + 1
    } else {
        i
    }
}

/// The multi-term batch driver: at each step every term's cached
/// coefficient for that step is folded into one shared accumulator, masked
/// terms excepted, before the single shared squaring.
pub struct BatchAdder<'a, 'b, 'c> {
    pub terms: &'c [(&'a G1Affine, &'b G2Prepared)],
    pub index: usize,
}

impl<'a, 'b, 'c> BatchAdder<'a, 'b, 'c> {
    fn fold_terms(&self, f: &mut Fp12)
        ensures
            *final(f) == batch_fold(batch_model(self.terms@), self.index as int, *old(f), 0),
            all_masked(batch_model(self.terms@)) ==> *final(f) == *old(f),
    {
        let ghost m = batch_model(self.terms@);
        let ghost f0 = *f;
        let mut k: usize = 0;
        while k < self.terms.len()
            invariant
                k <= self.terms@.len(),
                m == batch_model(self.terms@),
                batch_fold(m, self.index as int, *f, k as int) == batch_fold(
                    m,
                    self.index as int,
                    f0,
                    0,
                ),
                all_masked(m) ==> *f == f0,
            decreases self.terms@.len() - k,
        {
            let ghost pre_f = *f;
            let term = self.terms[k];
            let either_identity = bool_or(term.0.infinity, term.1.infinity);
            proof {
                if all_masked(m) {
                    assert(m[k as int].0.infinity || m[k as int].1);
                    assert(either_identity);
                }
            }
            if self.index < term.1.coeffs.len() {
                let new_f = ell(f, &term.1.coeffs[self.index], term.0);
                let sel = fp12_select(&new_f, f, either_identity);
                *f = sel;
            }
            proof {
                assert(batch_fold(m, self.index as int, pre_f, k as int) == batch_fold(
                    m,
                    self.index as int,
                    *f,
                    k as int + 1,
                ));
            }
            k = k + 1;
        }
    }
}

impl<'a, 'b, 'c> MillerLoopDriver for BatchAdder<'a, 'b, 'c> {
    type Output = Fp12;

    type Model = (Seq<(G1Affine, bool, Seq<(Fp2, Fp2, Fp2)>)>, int);

    open spec fn model(self) -> (Seq<(G1Affine, bool, Seq<(Fp2, Fp2, Fp2)>)>, int) {
        (batch_model(self.terms@), self.index as int)
    }

    open spec fn dbl_s(m: (Seq<(G1Affine, bool, Seq<(Fp2, Fp2, Fp2)>)>, int), f: Fp12) -> (
        (Seq<(G1Affine, bool, Seq<(Fp2, Fp2, Fp2)>)>, int),
        Fp12,
    ) {
        ((m.0, bump_s(m.1)), batch_fold(m.0, m.1, f, 0))
    }

    open spec fn add_s(m: (Seq<(G1Affine, bool, Seq<(Fp2, Fp2, Fp2)>)>, int), f: Fp12) -> (
        (Seq<(G1Affine, bool, Seq<(Fp2, Fp2, Fp2)>)>, int),
        Fp12,
    ) {
        ((m.0, bump_s(m.1)), batch_fold(m.0, m.1, f, 0))
    }

    open spec fn sq_s(f: Fp12) -> Fp12 {
        fp12_square_s(f)
    }

    open spec fn conj_s(f: Fp12) -> Fp12 {
        fp12_conjugate_s(f)
    }

    open spec fn one_s() -> Fp12 {
        fp12_one_v()
    }

    open spec fn oinv(m: (Seq<(G1Affine, bool, Seq<(Fp2, Fp2, Fp2)>)>, int), f: Fp12) -> bool {
        all_masked(m.0) ==> fp12_is_one(f)
    }

    fn doubling_step(&mut self, f: &mut Fp12) {
        self.fold_terms(f);
        self.index = if self.index < usize::MAX {
            self.index + 1
        } else {
            self.index
        };
    }

    fn addition_step(&mut self, f: &mut Fp12) {
        self.fold_terms(f);
        self.index = if self.index < usize::MAX {
            self.index + 1
        } else {
            self.index
        };
    }

    fn square_output(f: &mut Fp12) {
        let nf = fp12_square(f);
        *f = nf;
    }

    fn conjugate(f: &mut Fp12) {
        let nf = fp12_conjugate(f);
        *f = nf;
    }

    fn one() -> (r: Fp12) {
        fp12_one()
    }
}


/// Whether every term's cache holds exactly the 68 triples the scan reads.
pub open spec fn batch_wf(terms: Seq<(G1Affine, bool, Seq<(Fp2, Fp2, Fp2)>)>) -> bool {
    forall|t: int| 0 <= t < terms.len() ==> (#[trigger] terms[t]).2.len() == 68
}

/// The shared folding pass with the step index known to be inside every
/// cache.
pub open spec fn batch_fold_u(
    terms: Seq<(G1Affine, bool, Seq<(Fp2, Fp2, Fp2)>)>,
    idx: int,
    f: Fp12,
    k: int,
) -> Fp12
    decreases terms.len() - k,
{
    if k < 0 || k >= terms.len() {
        f
    } else {
        let t = terms[k];
        let either_identity = t.0.infinity || t.1;
        let nf = if either_identity {
            f
        } else {
            ell_s(f, t.2[idx], t.0)
        };
        batch_fold_u(terms, idx, nf, k + 1)
    }
}

proof fn lemma_batch_fold_u(
    terms: Seq<(G1Affine, bool, Seq<(Fp2, Fp2, Fp2)>)>,
    idx: int,
    f: Fp12,
    k: int,
)
    requires
        batch_wf(terms),
        0 <= idx < 68,
    ensures
        batch_fold(terms, idx, f, k) == batch_fold_u(terms, idx, f, k),
    decreases terms.len() - k,
{
    if k < 0 || k >= terms.len() {
    } else {
        let t = terms[k];
        let either_identity = t.0.infinity || t.1;
        let nf = if either_identity {
            f
        } else {
            ell_s(f, t.2[idx], t.0)
        };
        lemma_batch_fold_u(terms, idx, nf, k + 1);
    }
}

/// The batch scan over bits `i, ..., 0` with in-bounds coefficient reads:
/// the index advances by one per doubling or addition step.
pub open spec fn batch_scan_u(
    terms: Seq<(G1Affine, bool, Seq<(Fp2, Fp2, Fp2)>)>,
    idx: int,
    f: Fp12,
    found_one: bool,
    i: int,
) -> Fp12
    decreases i + 1,
{
    if i < 0 {
        f
    } else if !found_one {
        batch_scan_u(terms, idx, f, bls_bit(i), i - 1)
    } else {
        let f1 = batch_fold_u(terms, idx, f, 0);
        let f2 = if bls_bit(i) {
            batch_fold_u(terms, idx + 1, f1, 0)
        } else {
            f1
        };
        let step = if bls_bit(i) {
            2int
        } else {
            1int
        };
        batch_scan_u(terms, idx + step, fp12_square_s(f2), found_one, i - 1)
    }
}

proof fn lemma_batch_scan_u<'a, 'b, 'c>(
    terms: Seq<(G1Affine, bool, Seq<(Fp2, Fp2, Fp2)>)>,
    idx: int,
    f: Fp12,
    found_one: bool,
    i: int,
)
    requires
        batch_wf(terms),
        0 <= idx,
        idx + scan_pushes(found_one, i) <= 68,
    ensures
        ml_scan::<BatchAdder<'a, 'b, 'c>>((terms, idx), f, found_one, i) == (
            (terms, idx + scan_pushes(found_one, i)),
            batch_scan_u(terms, idx, f, found_one, i),
        ),
    decreases i + 1,
{
    lemma_scan_pushes_nonneg(found_one, i);
    if i < 0 {
    } else if !found_one {
        lemma_batch_scan_u(terms, idx, f, bls_bit(i), i - 1);
    } else {
        lemma_scan_pushes_nonneg(true, i - 1);
        let f1 = batch_fold_u(terms, idx, f, 0);
        lemma_batch_fold_u(terms, idx, f, 0);
        if bls_bit(i) {
            let f2 = batch_fold_u(terms, idx + 1, f1, 0);
            lemma_batch_fold_u(terms, idx + 1, f1, 0);
            lemma_batch_scan_u(terms, idx + 2, fp12_square_s(f2), true, i - 1);
        } else {
            lemma_batch_scan_u(terms, idx + 1, fp12_square_s(f1), true, i - 1);
        }
    }
}

proof fn lemma_scan_pushes_nonneg(found_one: bool, i: int)
    ensures
        scan_pushes(found_one, i) >= 0,
    decreases i + 1,
{
    if i < 0 {
    } else if !found_one {
        lemma_scan_pushes_nonneg(bls_bit(i), i - 1);
    } else {
        lemma_scan_pushes_nonneg(true, i - 1);
    }
}

/// The raw batched Miller-loop value with every coefficient read in
/// bounds: the bit scan, the closing doubling pass at step index 67, and
/// the conjugation for the parameter's sign.
pub open spec fn multi_miller_loop_u(terms: Seq<(G1Affine, bool, Seq<(Fp2, Fp2, Fp2)>)>) -> Fp12 {
    let scanned = batch_scan_u(terms, 0, fp12_one_v(), false, 63);
    fp12_conjugate_s(batch_fold_u(terms, 67, scanned, 0))
}


/// The working point after the scan of bits `i, ..., 0`, as every driver
/// evolves it.
pub open spec fn scan_cur(c: G2Projective, b: G2Affine, found_one: bool, i: int) -> G2Projective
    decreases i + 1,
{
    if i < 0 {
        c
    } else if !found_one {
        scan_cur(c, b, bls_bit(i), i - 1)
    } else {
        let st = doubling_step_s(c);
        if bls_bit(i) {
            let st2 = addition_step_s(st.0, b);
            scan_cur(st2.0, b, true, i - 1)
        } else {
            scan_cur(st.0, b, true, i - 1)
        }
    }
}

/// The line coefficients the scan of bits `i, ..., 0` produces, in order.
pub open spec fn scan_coeffs(c: G2Projective, b: G2Affine, found_one: bool, i: int) -> Seq<
    (Fp2, Fp2, Fp2),
>
    decreases i + 1,
{
    if i < 0 {
        Seq::empty()
    } else if !found_one {
        scan_coeffs(c, b, bls_bit(i), i - 1)
    } else {
        let st = doubling_step_s(c);
        if bls_bit(i) {
            let st2 = addition_step_s(st.0, b);
            seq![st.1, st2.1] + scan_coeffs(st2.0, b, true, i - 1)
        } else {
            seq![st.1] + scan_coeffs(st.0, b, true, i - 1)
        }
    }
}

proof fn lemma_scan_coeffs_len(c: G2Projective, b: G2Affine, found_one: bool, i: int)
    ensures
        scan_coeffs(c, b, found_one, i).len() == scan_pushes(found_one, i),
    decreases i + 1,
{
    if i < 0 {
    } else if !found_one {
        lemma_scan_coeffs_len(c, b, bls_bit(i), i - 1);
    } else {
        let st = doubling_step_s(c);
        if bls_bit(i) {
            let st2 = addition_step_s(st.0, b);
            lemma_scan_coeffs_len(st2.0, b, true, i - 1);
        } else {
            lemma_scan_coeffs_len(st.0, b, true, i - 1);
        }
    }
}

/// The caching driver's scan appends exactly the scan's coefficients to
/// whatever it already holds, and moves the working point as every driver
/// does.
proof fn lemma_prep_scan(
    c: G2Projective,
    b: G2Affine,
    pre: Seq<(Fp2, Fp2, Fp2)>,
    found_one: bool,
    i: int,
)
    ensures
        ml_scan::<PrepAdder>((c, b, pre), (), found_one, i).0 == (
            scan_cur(c, b, found_one, i),
            b,
            pre + scan_coeffs(c, b, found_one, i),
        ),
    decreases i + 1,
{
    if i < 0 {
        assert(pre + scan_coeffs(c, b, found_one, i) =~= pre);
    } else if !found_one {
        lemma_prep_scan(c, b, pre, bls_bit(i), i - 1);
    } else {
        let st = doubling_step_s(c);
        if bls_bit(i) {
            let st2 = addition_step_s(st.0, b);
            lemma_prep_scan(st2.0, b, pre.push(st.1).push(st2.1), true, i - 1);
            assert(pre.push(st.1).push(st2.1) + scan_coeffs(st2.0, b, true, i - 1) =~= pre + (
            seq![st.1, st2.1] + scan_coeffs(st2.0, b, true, i - 1)));
        } else {
            lemma_prep_scan(st.0, b, pre.push(st.1), true, i - 1);
            assert(pre.push(st.1) + scan_coeffs(st.0, b, true, i - 1) =~= pre + (seq![st.1]
                + scan_coeffs(st.0, b, true, i - 1)));
        }
    }
}

/// The direct driver's scan moves the working point as the shared scan
/// does.
proof fn lemma_pairing_scan_cur(
    c: G2Projective,
    b: G2Affine,
    p: G1Affine,
    f: Fp12,
    found_one: bool,
    i: int,
)
    ensures
        ml_scan::<PairingAdder>((PairingAdder { cur: c, base: b, p }), f, found_one, i).0 == (
        PairingAdder { cur: scan_cur(c, b, found_one, i), base: b, p }),
    decreases i + 1,
{
    if i < 0 {
    } else if !found_one {
        lemma_pairing_scan_cur(c, b, p, f, bls_bit(i), i - 1);
    } else {
        let st = doubling_step_s(c);
        let f1 = ell_s(f, st.1, p);
        if bls_bit(i) {
            let st2 = addition_step_s(st.0, b);
            lemma_pairing_scan_cur(st2.0, b, p, fp12_square_s(ell_s(f1, st2.1, p)), true, i - 1);
        } else {
            lemma_pairing_scan_cur(st.0, b, p, fp12_square_s(f1), true, i - 1);
        }
    }
}

/// A batch of one unmasked term reading a window of cached coefficients
/// accumulates exactly what the direct driver accumulates while producing
/// those coefficients.
proof fn lemma_single_term_scan(
    c: G2Projective,
    b: G2Affine,
    p: G1Affine,
    f: Fp12,
    found_one: bool,
    i: int,
    cache: Seq<(Fp2, Fp2, Fp2)>,
    idx: int,
)
    requires
        !p.infinity,
        0 <= idx,
        idx + scan_pushes(found_one, i) <= cache.len(),
        cache.subrange(idx, idx + scan_pushes(found_one, i)) == scan_coeffs(c, b, found_one, i),
    ensures
        batch_scan_u(seq![(p, false, cache)], idx, f, found_one, i) == ml_scan::<PairingAdder>(
            (PairingAdder { cur: c, base: b, p }),
            f,
            found_one,
            i,
        ).1,
    decreases i + 1,
{
    lemma_scan_pushes_nonneg(found_one, i);
    lemma_scan_coeffs_len(c, b, found_one, i);
    if i < 0 {
    } else if !found_one {
        lemma_single_term_scan(c, b, p, f, bls_bit(i), i - 1, cache, idx);
    } else {
        lemma_scan_pushes_nonneg(true, i - 1);
        let st = doubling_step_s(c);
        let window = cache.subrange(idx, idx + scan_pushes(found_one, i));
        assert(cache[idx] == window[0]);
        assert(cache[idx] == st.1);
        let terms = seq![(p, false, cache)];
        assert(batch_fold_u(terms, idx, f, 0) == ell_s(f, cache[idx], p)) by {
            assert(terms[0] == (p, false, cache));
            assert(batch_fold_u(terms, idx, ell_s(f, cache[idx], p), 1) == ell_s(
                f,
                cache[idx],
                p,
            ));
        }
        let f1 = ell_s(f, st.1, p);
        if bls_bit(i) {
            let st2 = addition_step_s(st.0, b);
            lemma_scan_coeffs_len(st2.0, b, true, i - 1);
            assert(cache[idx + 1] == window[1]);
            assert(cache[idx + 1] == st2.1);
            assert(batch_fold_u(terms, idx + 1, f1, 0) == ell_s(f1, cache[idx + 1], p)) by {
                assert(batch_fold_u(terms, idx + 1, ell_s(f1, cache[idx + 1], p), 1) == ell_s(
                    f1,
                    cache[idx + 1],
                    p,
                ));
            }
            let f2 = ell_s(f1, st2.1, p);
            assert(cache.subrange(idx + 2, idx + 2 + scan_pushes(true, i - 1)) =~= scan_coeffs(
                st2.0,
                b,
                true,
                i - 1,
            )) by {
                assert forall|k: int| 0 <= k < scan_pushes(true, i - 1) implies #[trigger] (
                cache.subrange(idx + 2, idx + 2 + scan_pushes(true, i - 1))[k]) == scan_coeffs(
                    st2.0,
                    b,
                    true,
                    i - 1,
                )[k] by {
                    assert(window[k + 2] == cache[idx + 2 + k]);
                    assert(window[k + 2] == scan_coeffs(st2.0, b, true, i - 1)[k]);
                }
            }
            lemma_single_term_scan(st2.0, b, p, fp12_square_s(f2), true, i - 1, cache, idx + 2);
        } else {
            lemma_scan_coeffs_len(st.0, b, true, i - 1);
            assert(cache.subrange(idx + 1, idx + 1 + scan_pushes(true, i - 1)) =~= scan_coeffs(
                st.0,
                b,
                true,
                i - 1,
            )) by {
                assert forall|k: int| 0 <= k < scan_pushes(true, i - 1) implies #[trigger] (
                cache.subrange(idx + 1, idx + 1 + scan_pushes(true, i - 1))[k]) == scan_coeffs(
                    st.0,
                    b,
                    true,
                    i - 1,
                )[k] by {
                    assert(window[k + 1] == cache[idx + 1 + k]);
                    assert(window[k + 1] == scan_coeffs(st.0, b, true, i - 1)[k]);
                }
            }
            lemma_single_term_scan(st.0, b, p, fp12_square_s(f1), true, i - 1, cache, idx + 1);
        }
    }
}

/// One batched term carrying the cached line coefficients of a point, with
/// neither operand masked, accumulates exactly the direct Miller loop of
/// the pair: the structural heart of the equivalence between batched and
/// repeated single pairings.
pub proof fn lemma_single_term_batch(p: G1Affine, q: G2Affine)
    requires
        !p.infinity,
    ensures
        multi_miller_loop_u(seq![(p, false, prep_coeffs_s(q))]) == pairing_s(p, q),
{
    let c = g2_projective_of(q);
    lemma_scan_pushes_value();
    lemma_scan_coeffs_len(c, q, false, 63);
    lemma_prep_scan(c, q, Seq::empty(), false, 63);
    let body = scan_coeffs(c, q, false, 63);
    let cur = scan_cur(c, q, false, 63);
    let st = doubling_step_s(cur);
    let cache = prep_coeffs_s(q);
    assert(cache =~= (Seq::empty() + body).push(st.1));
    assert(cache =~= body.push(st.1));
    assert(cache.subrange(0, 67) =~= body);
    lemma_single_term_scan(c, q, p, fp12_one_v(), false, 63, cache, 0);
    lemma_pairing_scan_cur(c, q, p, fp12_one_v(), false, 63);
    let terms = seq![(p, false, cache)];
    let scanned = batch_scan_u(terms, 0, fp12_one_v(), false, 63);
    assert(cache[67] == st.1);
    assert(batch_fold_u(terms, 67, scanned, 0) == ell_s(scanned, cache[67], p)) by {
        assert(terms[0] == (p, false, cache));
        assert(batch_fold_u(terms, 67, ell_s(scanned, cache[67], p), 1) == ell_s(
            scanned,
            cache[67],
            p,
        ));
    }
}

proof fn lemma_batch_scan_terms(
    m: (Seq<(G1Affine, bool, Seq<(Fp2, Fp2, Fp2)>)>, int),
    f: Fp12,
    found_one: bool,
    i: int,
)
    ensures
        ml_scan::<BatchAdder>(m, f, found_one, i).0.0 == m.0,
    decreases i + 1,
{
    if i < 0 {
    } else if !found_one {
        lemma_batch_scan_terms(m, f, bls_bit(i), i - 1);
    } else {
        let s1 = BatchAdder::dbl_s(m, f);
        if bls_bit(i) {
            let s2 = BatchAdder::add_s(s1.0, s1.1);
            lemma_batch_scan_terms(s2.0, BatchAdder::sq_s(s2.1), true, i - 1);
        } else {
            lemma_batch_scan_terms(s1.0, BatchAdder::sq_s(s1.1), true, i - 1);
        }
    }
}

/// The raw batched Miller-loop value of a list of terms.
pub open spec fn multi_miller_loop_s(terms: Seq<(&G1Affine, &G2Prepared)>) -> Fp12 {
    miller_loop_s::<BatchAdder>((batch_model(terms), 0)).1
}

/// Runs one shared Miller loop over every `(G1, G2Prepared)` term,
/// returning the unfinalized accumulation. Terms with an identity operand
/// are masked out, so finalizing the result equals the sum of the
/// individually finalized pairings of the non-degenerate terms.
pub fn multi_miller_loop(terms: &[(&G1Affine, &G2Prepared)]) -> (r: MillerLoopResult)
    ensures
        r.0 == multi_miller_loop_s(terms@),
        batch_wf(batch_model(terms@)) ==> r.0 == multi_miller_loop_u(batch_model(terms@)),
        all_masked(batch_model(terms@)) ==> fp12_is_one(r.0) && r.0 == fp12_one_v(),
{
    let one_witness = fp12_one();
    let mut adder = BatchAdder { terms, index: 0 };
    proof {
        assert(BatchAdder::oinv(adder.model(), fp12_one_v()));
    }
    let f = miller_loop(&mut adder);
    proof {
        assert(fp12_is_one(one_witness));
        lemma_batch_scan_terms((batch_model(terms@), 0), fp12_one_v(), false, 63);
        if batch_wf(batch_model(terms@)) {
            lemma_scan_pushes_value();
            lemma_batch_scan_u(batch_model(terms@), 0, fp12_one_v(), false, 63);
            lemma_batch_fold_u(
                batch_model(terms@),
                67,
                batch_scan_u(batch_model(terms@), 0, fp12_one_v(), false, 63),
                0,
            );
        }
    }
    MillerLoopResult(f)
}


impl G1Affine {
    /// Pairs this point with a second-group point.
    pub fn pairing_with(&self, other: &G2Affine) -> (r: Gt)
        requires
            g1a_wf(*self),
            g2a_wf(*other),
        ensures
            !self.infinity && !other.infinity && !fp12_is_zero(pairing_s(*self, *other))
                ==> r.0 == final_exp_s(pairing_s(*self, *other)),
            !self.infinity && !other.infinity && fp12_is_zero(pairing_s(*self, *other))
                ==> fp12_is_one(r.0),
            self.infinity || other.infinity ==> fp12_is_one(r.0) && r.0 == fp12_one_v(),
    {
        pairing(self, other)
    }
}

impl G2Affine {
    /// Pairs this point with a first-group point.
    pub fn pairing_with(&self, other: &G1Affine) -> (r: Gt)
        requires
            g2a_wf(*self),
            g1a_wf(*other),
        ensures
            !self.infinity && !other.infinity && !fp12_is_zero(pairing_s(*other, *self))
                ==> r.0 == final_exp_s(pairing_s(*other, *self)),
            !self.infinity && !other.infinity && fp12_is_zero(pairing_s(*other, *self))
                ==> fp12_is_one(r.0),
            self.infinity || other.infinity ==> fp12_is_one(r.0) && r.0 == fp12_one_v(),
    {
        pairing(other, self)
    }
}

/// The BLS12-381 pairing engine, as one named carrier for the pairing
/// operations.
#[derive(Clone, Debug)]
pub struct Bls12;

impl Bls12 {
    /// The single pairing.
    pub fn pairing(p: &G1Affine, q: &G2Affine) -> (r: Gt)
        requires
            g1a_wf(*p),
            g2a_wf(*q),
        ensures
            !p.infinity && !q.infinity && !fp12_is_zero(pairing_s(*p, *q)) ==> r.0
                == final_exp_s(pairing_s(*p, *q)),
            !p.infinity && !q.infinity && fp12_is_zero(pairing_s(*p, *q)) ==> fp12_is_one(r.0),
            p.infinity || q.infinity ==> fp12_is_one(r.0) && r.0 == fp12_one_v(),
    {
        pairing(p, q)
    }

    /// The batched Miller loop.
    pub fn multi_miller_loop(terms: &[(&G1Affine, &G2Prepared)]) -> (r: MillerLoopResult)
        ensures
            r.0 == multi_miller_loop_s(terms@),
            batch_wf(batch_model(terms@)) ==> r.0 == multi_miller_loop_u(batch_model(terms@)),
            all_masked(batch_model(terms@)) ==> fp12_is_one(r.0) && r.0 == fp12_one_v(),
    {
        multi_miller_loop(terms)
    }
}

} // verus!
