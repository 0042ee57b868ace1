//! The generic Miller-loop engine.
//!
//! One fixed bit-scan skeleton over the curve's defining parameter serves
//! three drivers: the direct single-pair accumulator, the coefficient-caching
//! accumulator behind `G2Prepared`, and the multi-term batch accumulator.
//! Each driver describes its transitions with spec functions over a model of
//! its state, and the engine's contract is the fold of those transitions
//! over the parameter's bits.

use vstd::prelude::*;

verus! {

/// The absolute value of the BLS12-381 curve parameter.
pub const BLS_X: u64 = 0xd201_0000_0001_0000;

/// The curve parameter is negative, so the loop ends with a conjugation.
pub const BLS_X_IS_NEGATIVE: bool = true;

/// Bit `i` of the scanned word `BLS_X >> 1`.
pub open spec fn bls_bit(i: int) -> bool {
    ((BLS_X >> 1u64) >> (i as u64)) & 1u64 == 1u64
}

/// A pluggable accumulator strategy for the Miller loop. The spec functions
/// describe each capability's effect on a model of the driver's state, and
/// the methods are bound to them.
pub trait MillerLoopDriver: Sized {
    type Output;

    type Model;

    /// The model of the driver's current state.
    spec fn model(self) -> Self::Model;

    /// The effect of one doubling step on model and accumulator.
    spec fn dbl_s(m: Self::Model, f: Self::Output) -> (Self::Model, Self::Output);

    /// The effect of one addition step on model and accumulator.
    spec fn add_s(m: Self::Model, f: Self::Output) -> (Self::Model, Self::Output);

    /// The effect of squaring the accumulator.
    spec fn sq_s(f: Self::Output) -> Self::Output;

    /// The effect of conjugating the accumulator.
    spec fn conj_s(f: Self::Output) -> Self::Output;

    /// The driver's notion of "one", the initial accumulator.
    spec fn one_s() -> Self::Output;

    /// A driver-chosen invariant tying the accumulator to the model. Every
    /// capability preserves it and the initial accumulator establishes it,
    /// so the engine carries it to the final output.
    spec fn oinv(m: Self::Model, f: Self::Output) -> bool;

    fn doubling_step(&mut self, f: &mut Self::Output)
        ensures
            (final(self).model(), *final(f)) == Self::dbl_s(old(self).model(), *old(f)),
            Self::oinv(old(self).model(), *old(f)) ==> Self::oinv(
                final(self).model(),
                *final(f),
            ),
    ;

    fn addition_step(&mut self, f: &mut Self::Output)
        ensures
            (final(self).model(), *final(f)) == Self::add_s(old(self).model(), *old(f)),
            Self::oinv(old(self).model(), *old(f)) ==> Self::oinv(
                final(self).model(),
                *final(f),
            ),
    ;

    fn square_output(f: &mut Self::Output)
        ensures
            *final(f) == Self::sq_s(*old(f)),
            forall|m: Self::Model|
                Self::oinv(m, *old(f)) ==> #[trigger] Self::oinv(m, *final(f)),
    ;

    fn conjugate(f: &mut Self::Output)
        ensures
            *final(f) == Self::conj_s(*old(f)),
            forall|m: Self::Model|
                Self::oinv(m, *old(f)) ==> #[trigger] Self::oinv(m, *final(f)),
    ;

    fn one() -> (r: Self::Output)
        ensures
            r == Self::one_s(),
    ;
}

/// The scan of bits `i, i-1, ..., 0` of the loop word: while the leading set
/// bit has not been seen, a bit only updates that flag; afterwards each bit
/// costs a doubling step, an addition step when the bit is set, and a
/// squaring.
pub open spec fn ml_scan<D: MillerLoopDriver>(
    m: D::Model,
    f: D::Output,
    found_one: bool,
    i: int,
) -> (D::Model, D::Output)
    decreases i + 1,
{
    if i < 0 {
        (m, f)
    } else if !found_one {
        ml_scan::<D>(m, f, bls_bit(i), i - 1)
    } else {
        let s1 = D::dbl_s(m, f);
        let s2 = if bls_bit(i) {
            D::add_s(s1.0, s1.1)
        } else {
            s1
        };
        ml_scan::<D>(s2.0, D::sq_s(s2.1), true, i - 1)
    }
}

/// The whole loop: the bit scan, one final unconditional doubling step, and
/// the closing conjugation forced by the parameter's sign.
pub open spec fn miller_loop_s<D: MillerLoopDriver>(m: D::Model) -> (D::Model, D::Output) {
    let st = ml_scan::<D>(m, D::one_s(), false, 63);
    let st2 = D::dbl_s(st.0, st.1);
    if BLS_X_IS_NEGATIVE {
        (st2.0, D::conj_s(st2.1))
    } else {
        st2
    }
}

/// Runs the Miller loop skeleton over the given driver.
pub fn miller_loop<D: MillerLoopDriver>(driver: &mut D) -> (r: D::Output)
    ensures
        (final(driver).model(), r) == miller_loop_s::<D>(old(driver).model()),
        D::oinv(old(driver).model(), D::one_s()) ==> D::oinv(final(driver).model(), r),
{
    let mut f = D::one();
    let mut found_one = false;
    let mut b: usize = 64;
    while b > 0
        invariant
            b <= 64,
            ml_scan::<D>((*driver).model(), f, found_one, b as int - 1) == ml_scan::<D>(
                old(driver).model(),
                D::one_s(),
                false,
                63,
            ),
            D::oinv(old(driver).model(), D::one_s()) ==> D::oinv((*driver).model(), f),
        decreases b,
    {
        b = b - 1;
        let ghost pre_m = (*driver).model();
        let ghost pre_f = f;
        let ghost pre_found = found_one;
        let bit = ((BLS_X >> 1) >> (b as u64)) & 1 == 1;
        proof {
            assert(bls_bit(b as int) == bit);
        }
        if !found_one {
            found_one = bit;
            proof {
                assert(ml_scan::<D>(pre_m, pre_f, pre_found, b as int) == ml_scan::<D>(
                    (*driver).model(),
                    f,
                    found_one,
                    b as int - 1,
                ));
            }
        } else {
            driver.doubling_step(&mut f);
            if bit {
                driver.addition_step(&mut f);
            }
            D::square_output(&mut f);
            proof {
                assert(ml_scan::<D>(pre_m, pre_f, pre_found, b as int) == ml_scan::<D>(
                    (*driver).model(),
                    f,
                    found_one,
                    b as int - 1,
                ));
            }
        }
    }
    proof {
        assert(ml_scan::<D>((*driver).model(), f, found_one, -1) == ((*driver).model(), f));
    }
    driver.doubling_step(&mut f);
    if BLS_X_IS_NEGATIVE {
        D::conjugate(&mut f);
    }
    f
}

} // verus!
