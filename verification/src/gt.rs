//! The target group of the pairing.
//!
//! A `Gt` value wraps a degree-12 extension element that lies in the
//! order-r cyclotomic subgroup: every public constructor goes through the
//! final exponentiation, or builds the identity or the fixed generator.
//! The group is written additively; addition is multiplication of the
//! wrapped values, negation is conjugation (valid because all elements are
//! unitary), and scalar multiplication is a double-and-add over the
//! scalar's bits that folds the addend in by masked selection rather than
//! branching.

use vstd::prelude::*;

verus! {

use crate::fp::Fp2;
use crate::fp::Fp6;
use crate::fp::Fp12;
use crate::fp::fp12_is_one;
use crate::fp::fp12_is_zero;
use crate::fp::fp12_reduced;
use crate::fp::fp12_one_v;
use crate::fp::fp12_one;
use crate::fp::fp12_mul;
use crate::fp::fp12_mul_s;
use crate::fp::fp12_square;
use crate::fp::fp12_square_s;
use crate::fp::fp12_conjugate;
use crate::fp::fp12_conjugate_s;
use crate::fp::fp12_select;
use crate::fp::fp12_random;
use crate::fp::fp12_zero_test;
use crate::pairings::MillerLoopResult;
use crate::pairings::final_exp_s;

/// An element of the pairing's target group.
#[derive(Clone, Copy, PartialEq, Eq, Debug)]
pub struct Gt(pub Fp12);

/// A scalar, held as its 32 canonical little-endian bytes.
#[derive(Clone, Copy, Debug)]
pub struct Scalar {
    pub bytes: [u8; 32],
}

impl Scalar {
    /// Wraps the canonical little-endian byte encoding of a scalar.
    pub fn from_bytes(bytes: [u8; 32]) -> (r: Scalar)
        ensures
            r.bytes@ == bytes@,
    {
        Scalar { bytes }
    }
}

/// Group addition: multiplication of the wrapped values.
pub open spec fn gt_add_s(a: Gt, b: Gt) -> Gt {
    Gt(fp12_mul_s(a.0, b.0))
}

/// Group negation: conjugation of the wrapped value.
pub open spec fn gt_neg_s(a: Gt) -> Gt {
    Gt(fp12_conjugate_s(a.0))
}

/// Bit `j` of the scalar, bits numbered from the most significant down.
pub open spec fn scalar_bit(bytes: Seq<u8>, j: int) -> bool {
    ((bytes[31 - j / 8] as u64) >> ((7 - j % 8) as u64)) & 1u64 == 1u64
}

/// The tail of the double-and-add scan: from an accumulator and bit index
/// `j`, doubling then conditionally folding in the base, through bit 255.
pub open spec fn gt_mul_scan(acc: Gt, base: Gt, bytes: Seq<u8>, j: int) -> Gt
    decreases 256 - j,
{
    if j >= 256 || j < 0 {
        acc
    } else {
        let d = Gt(fp12_square_s(acc.0));
        let a = if scalar_bit(bytes, j) {
            Gt(fp12_mul_s(d.0, base.0))
        } else {
            d
        };
        gt_mul_scan(a, base, bytes, j + 1)
    }
}

/// Scalar multiplication: the scan started at the identity, from bit 1 (the
/// top bit of a canonical scalar is always clear).
pub open spec fn gt_mul_s(base: Gt, bytes: Seq<u8>) -> Gt {
    gt_mul_scan(Gt(fp12_one_v()), base, bytes, 1)
}

/// The fixed generator of the target group, as a value: the pairing of
/// the two source groups' generators, hard-coded in Montgomery limb form.
pub open spec fn gt_generator_v() -> Gt {
    Gt(
            Fp12 {
                c0: Fp6 {
                    c0: Fp2 {
                        a: [
                            0x1972_e433_a01f_85c5, 0x97d3_2b76_fd77_2538, 0xc8ce_546f_c96b_cdf9, 0xcef6_3e73_66d4_0614, 0xa611_3427_8184_3780, 0x13f3_448a_3fc6_d825,
                        ],
                        b: [
                            0xd263_31b0_2e9d_6995, 0x9d68_a482_f779_7e7d, 0x9c9b_2924_8d39_ea92, 0xf480_1ca2_e131_07aa, 0xa16c_0732_bdbc_b066, 0x083c_a4af_ba36_0478,
                        ],
                    },
                    c1: Fp2 {
                        a: [
                            0x59e2_61db_0916_b641, 0x2716_b6f4_b23e_960d, 0xc8e5_5b10_a0bd_9c45, 0x0bdb_0bd9_9c4d_eda8, 0x8cf8_9ebf_57fd_aac5, 0x12d6_b792_9e77_7a5e,
                        ],
                        b: [
                            0x5fc8_5188_b0e1_5f35, 0x34a0_6e3a_8f09_6365, 0xdb31_26a6_e02a_d62c, 0xfc6f_5aa9_7d9a_990b, 0xa12f_55f5_eb89_c210, 0x1723_703a_926f_8889,
                        ],
                    },
                    c2: Fp2 {
                        a: [
                            0x9358_8f29_7182_8778, 0x43f6_5b86_11ab_7585, 0x3183_aaf5_ec27_9fdf, 0xfa73_d7e1_8ac9_9df6, 0x64e1_76a6_a64c_99b0, 0x179f_a78c_5838_8f1f,
                        ],
                        b: [
                            0x672a_0a11_ca2a_ef12, 0x0d11_b9b5_2aa3_f16b, 0xa444_12d0_699d_056e, 0xc01d_0177_221a_5ba5, 0x66e0_cede_6c73_5529, 0x05f5_a71e_9fdd_c339,
                        ],
                    },
                },
                c1: Fp6 {
                    c0: Fp2 {
                        a: [
                            0xd30a_88a1_b062_c679, 0x5ac5_6a5d_35fc_8304, 0xd0c8_34a6_a81f_290d, 0xcd54_30c2_da37_07c7, 0xf0c2_7ff7_8050_0af0, 0x0924_5da6_e2d7_2eae,
                        ],
                        b: [
                            0x9f2e_0676_791b_5156, 0xe2d1_c823_4918_fe13, 0x4c9e_459f_3c56_1bf4, 0xa3e8_5e53_b9d3_e3c1, 0x820a_121e_21a7_0020, 0x15af_6183_41c5_9acc,
                        ],
                    },
                    c1: Fp2 {
                        a: [
                            0x7c95_658c_2499_3ab1, 0x73eb_3872_1ca8_86b9, 0x5256_d749_4774_34bc, 0x8ba4_1902_ea50_4a8b, 0x04a3_d3f8_0c86_ce6d, 0x18a6_4a87_fb68_6eaa,
                        ],
                        b: [
                            0xbb83_e71b_b920_cf26, 0x2a52_77ac_92a7_3945, 0xfc0e_e59f_94f0_46a0, 0x7158_cdf3_7860_58f7, 0x7cc1_061b_82f9_45f6, 0x03f8_47aa_9fdb_e567,
                        ],
                    },
                    c2: Fp2 {
                        a: [
                            0x8078_dba5_6134_e657, 0x1cd7_ec9a_4399_8a6e, 0xb1aa_599a_1a99_3766, 0xc9a0_f62f_0842_ee44, 0x8e15_9be3_b605_dffa, 0x0c86_ba0d_4af1_3fc2,
                        ],
                        b: [
                            0xe80f_f2a0_6a52_ffb1, 0x7694_ca48_721a_906c, 0x7583_183e_03b0_8514, 0xf567_afdd_40ce_e4e2, 0x9a6d_96d2_e526_a5fc, 0x197e_9f49_861f_2242,
                        ],
                    },
                },
            },
    )
}

/// Masked selection between two target-group elements.
pub(crate) fn gt_select(a: &Gt, b: &Gt, choice: bool) -> (r: Gt)
    ensures
        r == if choice { *b } else { *a },
{
    Gt(fp12_select(&a.0, &b.0, choice))
}

impl Gt {
    /// Returns the group identity, which is one.
    pub fn identity() -> (r: Gt)
        ensures
            fp12_is_one(r.0),
            r.0 == fp12_one_v(),
    {
        Gt(fp12_one())
    }

    /// Doubles this group element by squaring the wrapped value.
    pub fn double(&self) -> (r: Gt)
        ensures
            r.0 == fp12_square_s(self.0),
            fp12_is_one(self.0) ==> fp12_is_one(r.0),
    {
        Gt(fp12_square(&self.0))
    }

    /// Constant-time equality: every limb difference is accumulated before
    /// the single comparison, with no data-dependent branch.
    pub fn ct_eq(&self, other: &Gt) -> (r: bool)
        ensures
            r == (*self == *other),
    {
        crate::fp::fp12_eq(&self.0, &other.0)
    }

    /// Whether this element is the group identity.
    pub fn is_identity(&self) -> (r: bool)
        ensures
            r == fp12_is_one(self.0),
    {
        let id = fp12_one();
        let r = crate::fp::fp12_eq(&self.0, &id);
        proof {
            if fp12_is_one(self.0) {
                assert(self.0 == id);
            }
        }
        r
    }

    /// Rejection sampling: draw a random degree-12 value, retry on zero, and
    /// run the final exponentiation to land in the subgroup. Every value
    /// this returns is the finalization of some nonzero element.
    pub fn random() -> (r: Gt)
        ensures
            exists|f: Fp12| !fp12_is_zero(f) && fp12_reduced(f) && r.0 == final_exp_s(f),
    {
        let mut i: usize = 0;
        while i < 128
            invariant
                i <= 128,
            decreases 128 - i,
        {
            let inner = fp12_random();
            if !fp12_zero_test(&inner) {
                return MillerLoopResult(inner).final_exponentiation();
            }
            i = i + 1;
        }
        // A uniformly random degree-12 value is zero with probability about
        // 2^-4600 per draw; this fallback is unreachable in practice and
        // keeps the function total.
        let one = fp12_one();
        MillerLoopResult(one).final_exponentiation()
    }

    /// The fixed generator: the pairing of the two source groups'
    /// generators, as the hard-coded constant `gt_generator_v`.
    pub fn generator() -> (r: Gt)
        ensures
            r == gt_generator_v(),
    {
        let r = Gt(
            Fp12 {
                c0: Fp6 {
                    c0: Fp2 {
                        a: [
                            0x1972_e433_a01f_85c5, 0x97d3_2b76_fd77_2538, 0xc8ce_546f_c96b_cdf9, 0xcef6_3e73_66d4_0614, 0xa611_3427_8184_3780, 0x13f3_448a_3fc6_d825,
                        ],
                        b: [
                            0xd263_31b0_2e9d_6995, 0x9d68_a482_f779_7e7d, 0x9c9b_2924_8d39_ea92, 0xf480_1ca2_e131_07aa, 0xa16c_0732_bdbc_b066, 0x083c_a4af_ba36_0478,
                        ],
                    },
                    c1: Fp2 {
                        a: [
                            0x59e2_61db_0916_b641, 0x2716_b6f4_b23e_960d, 0xc8e5_5b10_a0bd_9c45, 0x0bdb_0bd9_9c4d_eda8, 0x8cf8_9ebf_57fd_aac5, 0x12d6_b792_9e77_7a5e,
                        ],
                        b: [
                            0x5fc8_5188_b0e1_5f35, 0x34a0_6e3a_8f09_6365, 0xdb31_26a6_e02a_d62c, 0xfc6f_5aa9_7d9a_990b, 0xa12f_55f5_eb89_c210, 0x1723_703a_926f_8889,
                        ],
                    },
                    c2: Fp2 {
                        a: [
                            0x9358_8f29_7182_8778, 0x43f6_5b86_11ab_7585, 0x3183_aaf5_ec27_9fdf, 0xfa73_d7e1_8ac9_9df6, 0x64e1_76a6_a64c_99b0, 0x179f_a78c_5838_8f1f,
                        ],
                        b: [
                            0x672a_0a11_ca2a_ef12, 0x0d11_b9b5_2aa3_f16b, 0xa444_12d0_699d_056e, 0xc01d_0177_221a_5ba5, 0x66e0_cede_6c73_5529, 0x05f5_a71e_9fdd_c339,
                        ],
                    },
                },
                c1: Fp6 {
                    c0: Fp2 {
                        a: [
                            0xd30a_88a1_b062_c679, 0x5ac5_6a5d_35fc_8304, 0xd0c8_34a6_a81f_290d, 0xcd54_30c2_da37_07c7, 0xf0c2_7ff7_8050_0af0, 0x0924_5da6_e2d7_2eae,
                        ],
                        b: [
                            0x9f2e_0676_791b_5156, 0xe2d1_c823_4918_fe13, 0x4c9e_459f_3c56_1bf4, 0xa3e8_5e53_b9d3_e3c1, 0x820a_121e_21a7_0020, 0x15af_6183_41c5_9acc,
                        ],
                    },
                    c1: Fp2 {
                        a: [
                            0x7c95_658c_2499_3ab1, 0x73eb_3872_1ca8_86b9, 0x5256_d749_4774_34bc, 0x8ba4_1902_ea50_4a8b, 0x04a3_d3f8_0c86_ce6d, 0x18a6_4a87_fb68_6eaa,
                        ],
                        b: [
                            0xbb83_e71b_b920_cf26, 0x2a52_77ac_92a7_3945, 0xfc0e_e59f_94f0_46a0, 0x7158_cdf3_7860_58f7, 0x7cc1_061b_82f9_45f6, 0x03f8_47aa_9fdb_e567,
                        ],
                    },
                    c2: Fp2 {
                        a: [
                            0x8078_dba5_6134_e657, 0x1cd7_ec9a_4399_8a6e, 0xb1aa_599a_1a99_3766, 0xc9a0_f62f_0842_ee44, 0x8e15_9be3_b605_dffa, 0x0c86_ba0d_4af1_3fc2,
                        ],
                        b: [
                            0xe80f_f2a0_6a52_ffb1, 0x7694_ca48_721a_906c, 0x7583_183e_03b0_8514, 0xf567_afdd_40ce_e4e2, 0x9a6d_96d2_e526_a5fc, 0x197e_9f49_861f_2242,
                        ],
                    },
                },
            },
        );
        proof {
            assert(r == gt_generator_v());
        }
        r
    }
}

impl core::ops::Neg for Gt {
    type Output = Gt;

    /// The element is unitary, so negation is conjugation.
    fn neg(self) -> (r: Gt)
        ensures
            r == gt_neg_s(self),
    {
        Gt(fp12_conjugate(&self.0))
    }
}

impl vstd::std_specs::ops::NegSpecImpl for Gt {
    open spec fn obeys_neg_spec() -> bool {
        true
    }

    open spec fn neg_req(self) -> bool {
        true
    }

    open spec fn neg_spec(self) -> Gt {
        gt_neg_s(self)
    }
}

impl core::ops::Add<Gt> for Gt {
    type Output = Gt;

    /// Group addition multiplies the wrapped values.
    fn add(self, rhs: Gt) -> (r: Gt)
        ensures
            r == gt_add_s(self, rhs),
    {
        Gt(fp12_mul(&self.0, &rhs.0))
    }
}

impl vstd::std_specs::ops::AddSpecImpl<Gt> for Gt {
    open spec fn obeys_add_spec() -> bool {
        true
    }

    open spec fn add_req(self, rhs: Gt) -> bool {
        true
    }

    open spec fn add_spec(self, rhs: Gt) -> Gt {
        gt_add_s(self, rhs)
    }
}

impl core::ops::Sub<Gt> for Gt {
    type Output = Gt;

    /// Group subtraction adds the negation.
    fn sub(self, rhs: Gt) -> (r: Gt)
        ensures
            r == gt_add_s(self, gt_neg_s(rhs)),
    {
        Gt(fp12_mul(&self.0, &fp12_conjugate(&rhs.0)))
    }
}

impl vstd::std_specs::ops::SubSpecImpl<Gt> for Gt {
    open spec fn obeys_sub_spec() -> bool {
        true
    }

    open spec fn sub_req(self, rhs: Gt) -> bool {
        true
    }

    open spec fn sub_spec(self, rhs: Gt) -> Gt {
        gt_add_s(self, gt_neg_s(rhs))
    }
}

impl core::ops::Mul<Scalar> for Gt {
    type Output = Gt;

    /// Double-and-add over the scalar's bits, most significant first,
    /// skipping the structurally clear top bit, with the addend folded in
    /// by masked selection.
    fn mul(self, rhs: Scalar) -> (r: Gt)
        ensures
            r == gt_mul_s(self, rhs.bytes@),
    {
        let mut acc = Gt::identity();
        let mut j: usize = 1;
        while j < 256
            invariant
                1 <= j <= 256,
                gt_mul_scan(acc, self, rhs.bytes@, j as int) == gt_mul_s(self, rhs.bytes@),
            decreases 256 - j,
        {
            let ghost pre_acc = acc;
            let byte = rhs.bytes[31 - j / 8];
            let bit = ((byte >> (7 - (j % 8) as u32)) & 1) == 1;
            proof {
                assert(bit == scalar_bit(rhs.bytes@, j as int));
            }
            let doubled = acc.double();
            let summed = Gt(fp12_mul(&doubled.0, &self.0));
            acc = gt_select(&doubled, &summed, bit);
            proof {
                assert(gt_mul_scan(pre_acc, self, rhs.bytes@, j as int) == gt_mul_scan(
                    acc,
                    self,
                    rhs.bytes@,
                    j as int + 1,
                ));
            }
            j = j + 1;
        }
        acc
    }
}

impl vstd::std_specs::ops::MulSpecImpl<Scalar> for Gt {
    open spec fn obeys_mul_spec() -> bool {
        true
    }

    open spec fn mul_req(self, rhs: Scalar) -> bool {
        true
    }

    open spec fn mul_spec(self, rhs: Scalar) -> Gt {
        gt_mul_s(self, rhs.bytes@)
    }
}

impl Default for Gt {
    /// The default element is the identity.
    fn default() -> (r: Gt)
        ensures
            fp12_is_one(r.0),
    {
        Gt::identity()
    }
}

} // verus!
