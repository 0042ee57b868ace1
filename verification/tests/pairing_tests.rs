use ark_ec::AffineRepr;
use ark_ec::CurveGroup;
use ark_ff::BigInt;
use ark_ff::BigInteger;
use ark_ff::Field;
use ark_ff::PrimeField;

use bls12_381::gt::Gt;
use bls12_381::gt::Scalar;
use bls12_381::pairings::multi_miller_loop;
use bls12_381::pairings::pairing;
use bls12_381::pairings::Bls12;
use bls12_381::pairings::G2Prepared;
use bls12_381::pairings::MillerLoopResult;
use bls12_381::points::G1Affine;
use bls12_381::points::G2Affine;

fn fp_of(x: &ark_bls12_381::Fq) -> bls12_381::fp::Fp {
    bls12_381::fp::Fp { l: (x.0).0 }
}

fn fp2_of(x: &ark_bls12_381::Fq2) -> bls12_381::fp::Fp2 {
    bls12_381::fp::Fp2 { a: (x.c0.0).0, b: (x.c1.0).0 }
}

fn g1_of(p: ark_bls12_381::G1Affine) -> G1Affine {
    G1Affine::from_coordinates(fp_of(&p.x), fp_of(&p.y), p.infinity)
}

fn g2_of(q: ark_bls12_381::G2Affine) -> G2Affine {
    G2Affine::from_coordinates(fp2_of(&q.x), fp2_of(&q.y), q.infinity)
}

fn g1_generator() -> G1Affine {
    g1_of(ark_bls12_381::G1Affine::generator())
}

fn g2_generator() -> G2Affine {
    g2_of(ark_bls12_381::G2Affine::generator())
}

fn g1_identity() -> G1Affine {
    g1_of(ark_bls12_381::G1Affine::identity())
}

fn g2_identity() -> G2Affine {
    g2_of(ark_bls12_381::G2Affine::identity())
}

fn scalar_of(fr: ark_bls12_381::Fr) -> Scalar {
    let bytes = fr.into_bigint().to_bytes_le();
    let mut b = [0u8; 32];
    b.copy_from_slice(&bytes);
    Scalar::from_bytes(b)
}

fn fr_raw(limbs: [u64; 4]) -> ark_bls12_381::Fr {
    ark_bls12_381::Fr::from_bigint(BigInt::new(limbs)).unwrap()
}

fn g1_mul(s: ark_bls12_381::Fr) -> G1Affine {
    g1_of((ark_bls12_381::G1Affine::generator() * s).into_affine())
}

fn g2_mul(s: ark_bls12_381::Fr) -> G2Affine {
    g2_of((ark_bls12_381::G2Affine::generator() * s).into_affine())
}

fn g1_neg(p: &G1Affine) -> G1Affine {
    assert!(!p.infinity);
    let x = ark_ff::Fp::new_unchecked(BigInt(p.x.l));
    let y = ark_ff::Fp::new_unchecked(BigInt(p.y.l));
    let a = ark_bls12_381::G1Affine::new_unchecked(x, y);
    g1_of(-a)
}

fn g2_neg(q: &G2Affine) -> G2Affine {
    assert!(!q.infinity);
    let fq = |l: [u64; 6]| ark_ff::Fp::<_, 6>::new_unchecked(BigInt(l));
    let x = ark_bls12_381::Fq2::new(fq(q.x.a), fq(q.x.b));
    let y = ark_bls12_381::Fq2::new(fq(q.y.a), fq(q.y.b));
    let a = ark_bls12_381::G2Affine::new_unchecked(x, y);
    g2_of(-a)
}

#[test]
fn test_gt_generator() {
    assert_eq!(Gt::generator(), pairing(&g1_generator(), &g2_generator()));
}

#[test]
fn test_bilinearity() {
    let a = fr_raw([1, 2, 3, 4]).inverse().unwrap().square();
    let b = fr_raw([5, 6, 7, 8]).inverse().unwrap().square();
    let c = a * b;

    let g = g1_mul(a);
    let h = g2_mul(b);
    let p = pairing(&g, &h);

    assert!(p != Gt::identity());

    let expected = g1_mul(c);

    assert_eq!(p, pairing(&expected, &g2_generator()));
    assert_eq!(p, pairing(&g1_generator(), &g2_generator()) * scalar_of(c));
}

#[test]
fn test_unitary() {
    let g = g1_generator();
    let h = g2_generator();
    let p = -pairing(&g, &h);
    let q = pairing(&g, &g2_neg(&h));
    let r = pairing(&g1_neg(&g), &h);

    assert_eq!(p, q);
    assert_eq!(q, r);
}

#[test]
fn test_multi_miller_loop() {
    let a1 = g1_generator();
    let b1 = g2_generator();

    let a2 = g1_mul(fr_raw([1, 2, 3, 4]).inverse().unwrap().square());
    let b2 = g2_mul(fr_raw([4, 2, 2, 4]).inverse().unwrap().square());

    let a3 = g1_identity();
    let b3 = g2_mul(fr_raw([9, 2, 2, 4]).inverse().unwrap().square());

    let a4 = g1_mul(fr_raw([5, 5, 5, 5]).inverse().unwrap().square());
    let b4 = g2_identity();

    let a5 = g1_mul(fr_raw([323, 32, 3, 1]).inverse().unwrap().square());
    let b5 = g2_mul(fr_raw([4, 2, 2, 9099]).inverse().unwrap().square());

    let b1_prepared = G2Prepared::from(b1);
    let b2_prepared = G2Prepared::from(b2);
    let b3_prepared = G2Prepared::from(b3);
    let b4_prepared = G2Prepared::from(b4);
    let b5_prepared = G2Prepared::from(b5);

    let expected = pairing(&a1, &b1) + pairing(&a2, &b2) + pairing(&a3, &b3) + pairing(&a4, &b4)
        + pairing(&a5, &b5);

    let test = multi_miller_loop(
        &[
            (&a1, &b1_prepared),
            (&a2, &b2_prepared),
            (&a3, &b3_prepared),
            (&a4, &b4_prepared),
            (&a5, &b5_prepared),
        ],
    )
    .final_exponentiation();

    assert_eq!(expected, test);
}

#[test]
fn test_miller_loop_result_default() {
    assert_eq!(MillerLoopResult::default().final_exponentiation(), Gt::identity());
}

#[test]
fn tricking_miller_loop_result() {
    let one = MillerLoopResult::default().0;
    assert_eq!(
        multi_miller_loop(&[(&g1_identity(), &G2Prepared::from(g2_generator()))]).0,
        one
    );
    assert_eq!(
        multi_miller_loop(&[(&g1_generator(), &G2Prepared::from(g2_identity()))]).0,
        one
    );
    let gen_prep = G2Prepared::from(g2_generator());
    let gen_prep2 = G2Prepared::from(g2_generator());
    assert_ne!(
        multi_miller_loop(
            &[(&g1_generator(), &gen_prep), (&g1_neg(&g1_generator()), &gen_prep2)],
        )
        .0,
        one
    );
    assert_eq!(
        multi_miller_loop(
            &[(&g1_generator(), &gen_prep), (&g1_neg(&g1_generator()), &gen_prep2)],
        )
        .final_exponentiation(),
        Gt::identity()
    );
}

#[test]
fn test_identity_absorption() {
    let q = g2_mul(fr_raw([7, 0, 0, 0]));
    let p = g1_mul(fr_raw([11, 0, 0, 0]));
    assert_eq!(pairing(&g1_identity(), &q), Gt::identity());
    assert_eq!(pairing(&p, &g2_identity()), Gt::identity());
    assert_eq!(pairing(&g1_identity(), &g2_identity()), Gt::identity());
}

#[test]
fn test_gt_group_ops() {
    let g = Gt::generator();
    assert_eq!(g.double(), g + g);
    assert_eq!(g - g, Gt::identity());
    assert_eq!(g + Gt::identity(), g);
    assert_eq!(-(-g), g);
    assert!(Gt::identity().is_identity());
    assert!(!g.is_identity());
    assert_eq!(Gt::default(), Gt::identity());
}

#[test]
fn test_gt_scalar_mul_matches_doubling() {
    let g = Gt::generator();
    let two = scalar_of(fr_raw([2, 0, 0, 0]));
    let five = scalar_of(fr_raw([5, 0, 0, 0]));
    assert_eq!(g * two, g.double());
    assert_eq!(g * five, g + g + g + g + g);
}

#[test]
fn test_prepared_matches_direct_pairing() {
    let p = g1_mul(fr_raw([13, 1, 0, 0]));
    let q = g2_mul(fr_raw([17, 0, 1, 0]));
    let prep = G2Prepared::from(q);
    let batched = multi_miller_loop(&[(&p, &prep)]).final_exponentiation();
    assert_eq!(batched, pairing(&p, &q));
    assert_eq!(batched, Bls12::pairing(&p, &q));
}

#[test]
fn test_miller_loop_accumulation() {
    // accumulating two raw results and finalizing once equals adding the
    // separately finalized pairings
    let p1 = g1_mul(fr_raw([3, 0, 0, 0]));
    let q1 = g2_mul(fr_raw([4, 0, 0, 0]));
    let p2 = g1_mul(fr_raw([6, 0, 0, 0]));
    let q2 = g2_mul(fr_raw([8, 0, 0, 0]));
    let m1 = multi_miller_loop(&[(&p1, &G2Prepared::from(q1))]);
    let m2 = multi_miller_loop(&[(&p2, &G2Prepared::from(q2))]);
    let combined = (m1 + m2).final_exponentiation();
    assert_eq!(combined, pairing(&p1, &q1) + pairing(&p2, &q2));
}

#[test]
fn test_gt_random() {
    let a = Gt::random();
    let b = Gt::random();
    assert!(a != b);
    assert_eq!(a + Gt::identity(), a);
    assert_eq!(a - a, Gt::identity());
}

#[test]
fn test_empty_batch() {
    let one = MillerLoopResult::default().0;
    assert_eq!(multi_miller_loop(&[]).0, one);
    assert_eq!(multi_miller_loop(&[]).final_exponentiation(), Gt::identity());
}

#[test]
fn test_verify_aggregate_signature() {
    let s = fr_raw([12345, 6, 0, 0]);
    let t = fr_raw([777, 0, 1, 0]);
    let pk = g1_mul(s);
    let msg = g2_mul(t);
    let sig = g2_mul(t * s);
    let c = vec![1u8, 2, 3];
    assert!(bls12_381::step::verify_aggregate_signature(&pk, &c, &c.clone(), &msg, &sig));
    // a commitment mismatch fails
    assert!(!bls12_381::step::verify_aggregate_signature(&pk, &c, &vec![9u8], &msg, &sig));
    // a signature by the wrong key fails
    let bad_sig = g2_mul(t * fr_raw([4, 0, 0, 0]));
    assert!(!bls12_381::step::verify_aggregate_signature(&pk, &c, &c.clone(), &msg, &bad_sig));
}

#[test]
fn test_gt_ct_eq() {
    let g = Gt::generator();
    assert!(g.ct_eq(&g));
    assert!(!g.ct_eq(&Gt::identity()));
    assert!(Gt::identity().ct_eq(&Gt::identity()));
}
