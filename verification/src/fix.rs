//! Q20.12 signed fixed-point arithmetic: the smoothed-sample state and the
//! linear temperature estimate work on plain `i32` bit patterns scaled by 4096.

use vstd::prelude::*;

verus! {

/// One in Q20.12: values are stored scaled by this factor.
pub const FIX_ONE: i32 = 4096;

/// Largest raw analog sample the 10-bit converter can produce.
pub const SAMPLE_MAX: u16 = 1023;

/// Q20.12 rounding of the smoothing weight 0.8 on the previous average.
pub const SMOOTH_PREV_W: i32 = 3277;

/// Q20.12 rounding of the smoothing weight 0.2 on the fresh sample.
pub const SMOOTH_RAW_W: i32 = 819;

/// A Q20.12 fixed-point number: `bits` holds the value scaled by 4096.
#[derive(Clone, Copy, Debug, PartialEq, Eq, Structural)]
pub struct Fix {
    pub bits: i32,
}

impl Fix {
    /// A smoothed sample stays inside the raw sample range `[0, 1023]`:
    /// smoothing is a convex combination of values in that range.
    pub open spec fn wf_sample(self) -> bool {
        0 <= self.bits <= SAMPLE_MAX * FIX_ONE
    }

    /// Exact conversion of an integer sample into fixed point.
    pub fn from_int(v: u16) -> (r: Fix)
        ensures
            r.bits == v * FIX_ONE,
    {
        Fix { bits: (v as i32) * FIX_ONE }
    }

    /// Integer part of a non-negative fixed-point value.
    pub fn floor(self) -> (r: i32)
        requires
            self.bits >= 0,
        ensures
            r == self.bits as int / FIX_ONE as int,
    {
        self.bits / FIX_ONE
    }
}

/// Calibration constant of the linear thermistor approximation, in Q20.12:
/// an analog reading of 510 corresponds to the 25 degree calibration point.
pub const TEMP_CAL_BITS: i32 = 510 * 4096;

/// Slope of the linear thermistor approximation: 10 analog counts per degree.
pub const TEMP_SLOPE: i32 = 10;

/// Temperature offset at the calibration point, in Q20.12: 25 degrees.
pub const TEMP_OFFSET_BITS: i32 = 25 * 4096;

/// The linear temperature estimate on fixed-point bit patterns:
/// `(-s + 510) / -10 + 25` in Q20.12, the quotient truncated toward zero.
pub open spec fn temp_bits_spec(s: int) -> int {
    if s <= TEMP_CAL_BITS {
        TEMP_OFFSET_BITS - (TEMP_CAL_BITS - s) / TEMP_SLOPE as int
    } else {
        TEMP_OFFSET_BITS + (s - TEMP_CAL_BITS) / TEMP_SLOPE as int
    }
}

/// A value that can be read as a temperature estimate.
pub trait Temp where Self: Sized {
    /// Inputs on which the estimate is defined.
    spec fn temp_req(&self) -> bool;

    /// What the estimate returns.
    spec fn temp_spec(&self) -> Self;

    /// Derive the temperature estimate.
    fn temp(&self) -> (r: Self)
        requires
            self.temp_req(),
        ensures
            r == self.temp_spec(),
    ;
}

impl Temp for Fix {
    /// The estimate is calibrated for smoothed samples, which stay in range.
    open spec fn temp_req(&self) -> bool {
        self.wf_sample()
    }

    open spec fn temp_spec(&self) -> Fix {
        Fix { bits: temp_bits_spec(self.bits as int) as i32 }
    }

    /// Linear approximation of the thermistor divider's voltage-to-temperature
    /// relation, avoiding logarithms and floating point.
    fn temp(&self) -> (r: Fix) {
        if self.bits <= TEMP_CAL_BITS {
            Fix { bits: TEMP_OFFSET_BITS - (TEMP_CAL_BITS - self.bits) / TEMP_SLOPE }
        } else {
            Fix { bits: TEMP_OFFSET_BITS + (self.bits - TEMP_CAL_BITS) / TEMP_SLOPE }
        }
    }
}

/// One smoothing step: `0.8 * prev + 0.2 * raw` in Q20.12, each product
/// truncated to fixed point as the hardware formula computes it.
pub open spec fn smooth_spec(prev: int, raw: int) -> int {
    SMOOTH_PREV_W * prev / FIX_ONE as int + SMOOTH_RAW_W * raw
}

/// Exponentially smooth the running average toward a fresh raw sample.
pub fn smooth(prev: Fix, raw: u16) -> (r: Fix)
    requires
        prev.wf_sample(),
        raw <= SAMPLE_MAX,
    ensures
        r.bits == smooth_spec(prev.bits as int, raw as int),
        r.wf_sample(),
{
    proof {
        vstd::arithmetic::div_mod::lemma_div_is_ordered(
            SMOOTH_PREV_W as int * prev.bits as int,
            SMOOTH_PREV_W as int * (SAMPLE_MAX * FIX_ONE) as int,
            FIX_ONE as int,
        );
        assert(SMOOTH_PREV_W as int * (SAMPLE_MAX * FIX_ONE) as int / FIX_ONE as int
            == SMOOTH_PREV_W as int * SAMPLE_MAX as int) by (nonlinear_arith);
        vstd::arithmetic::div_mod::lemma_div_is_ordered(
            0,
            SMOOTH_PREV_W as int * prev.bits as int,
            FIX_ONE as int,
        );
    }
    let weighted_prev: i64 = (SMOOTH_PREV_W as i64) * (prev.bits as i64) / (FIX_ONE as i64);
    let weighted_raw: i64 = (SMOOTH_RAW_W as i64) * (raw as i64);
    Fix { bits: (weighted_prev + weighted_raw) as i32 }
}

/// Exponential decay of the smoothing error. Writing `e` for the distance of
/// the running average from the steady-state value `raw * 4096`, one smoothing
/// step multiplies `e` by the fixed-point weight 3277/4096 (about 0.8) and
/// floors: a positive error strictly shrinks toward zero, a negative error
/// never grows and strictly shrinks while it is below -5 bits, so repeated
/// smoothing against a constant sample converges to within 5/4096 of it.
pub proof fn lemma_smooth_converges(prev: int, raw: int)
    requires
        0 <= prev <= SAMPLE_MAX * FIX_ONE,
        0 <= raw <= SAMPLE_MAX,
    ensures
        smooth_spec(prev, raw) - FIX_ONE * raw
            == SMOOTH_PREV_W * (prev - FIX_ONE * raw) / FIX_ONE as int,
        prev - FIX_ONE * raw == 0 ==> smooth_spec(prev, raw) - FIX_ONE * raw == 0,
        prev - FIX_ONE * raw > 0 ==> 0 <= smooth_spec(prev, raw) - FIX_ONE * raw < prev
            - FIX_ONE * raw,
        prev - FIX_ONE * raw < 0 ==> prev - FIX_ONE * raw <= smooth_spec(prev, raw)
            - FIX_ONE * raw <= 0,
        prev - FIX_ONE * raw <= -6 ==> smooth_spec(prev, raw) - FIX_ONE * raw > prev
            - FIX_ONE * raw,
{
    let e = prev - FIX_ONE * raw;
    let w = SMOOTH_PREV_W as int;
    let one = FIX_ONE as int;
    assert(w * prev / one - w * raw == (w * prev + (-(w * raw)) * one) / one) by {
        vstd::arithmetic::div_mod::lemma_hoist_over_denominator(w * prev, -(w * raw), 4096nat);
    }
    assert(w * prev + (-(w * raw)) * one == w * e) by (nonlinear_arith)
        requires e == prev - one * raw;
    assert(smooth_spec(prev, raw) - one * raw == w * e / one);
    vstd::arithmetic::div_mod::lemma_fundamental_div_mod(w * e, one);
    let q = w * e / one;
    let r = w * e % one;
    assert(w * e == one * q + r);
    vstd::arithmetic::div_mod::lemma_mod_bound(w * e, one);
    if e == 0 {
        assert(w * e == 0) by (nonlinear_arith)
            requires e == 0;
        assert(q == 0);
    } else if e > 0 {
        assert(w * e < one * e) by (nonlinear_arith)
            requires e > 0 && w == 3277 && one == 4096;
        assert(w * e >= 0) by (nonlinear_arith)
            requires e > 0 && w == 3277;
        assert(one * q <= w * e);
        assert(one * q < one * e);
        assert(q < e);
        assert(one * q > w * e - one);
        assert(one * q > -one);
        assert(q >= 0);
    } else {
        assert(w * e >= one * e) by (nonlinear_arith)
            requires e < 0 && w == 3277 && one == 4096;
        assert(w * e <= 0) by (nonlinear_arith)
            requires e < 0 && w == 3277;
        assert(one * q <= w * e);
        assert(q <= 0);
        assert(one * q > w * e - one);
        assert(one * q > one * e - one);
        assert(one * q > one * (e - 1)) by (nonlinear_arith)
            requires one * q > one * e - one && one == 4096;
        assert(q > e - 1);
        if e <= -6 {
            assert(w * e - one * e == -819 * e) by (nonlinear_arith)
                requires w == 3277 && one == 4096;
            assert(-819 * e >= 4914) by (nonlinear_arith)
                requires e <= -6;
            assert(one * q > one * e);
            assert(q > e);
        }
    }
}

} // verus!
