//! The control loop: owns the smoothing state and both PWM channels, and
//! turns one raw analog sample per tick into duty-cycle updates.

use vstd::prelude::*;

use crate::fix::smooth;
use crate::fix::smooth_spec;
use crate::fix::temp_bits_spec;
use crate::fix::Fix;
use crate::fix::Temp;
use crate::fix::FIX_ONE;
use crate::fix::SAMPLE_MAX;
use crate::fix::TEMP_CAL_BITS;
use crate::fix::TEMP_SLOPE;
use crate::fix::TEMP_OFFSET_BITS;
use crate::pwm::FanCurve;
use crate::pwm::FanTimer;
use crate::pwm::PumpTimer;
use crate::pwm::PwmDevice;
use crate::pwm::PwmPhaseInit;
use crate::pwm::SetDuty;

verus! {

/// Neutral mid-scale sample the smoother starts from.
pub const INIT_SAMPLE: u16 = 512;

/// Drive one tick of updates from fresh state and a raw sample.
pub trait Controller where Self: Sized {
    /// States and samples a tick is defined for.
    spec fn update_req(self, raw: u16) -> bool;

    /// The state after one tick.
    spec fn update_spec(self, raw: u16) -> Self;

    /// Run one tick: fold the sample into the smoothed state and drive every
    /// channel from the resulting temperature estimate.
    fn update(&mut self, raw: u16)
        requires
            (*old(self)).update_req(raw),
        ensures
            *final(self) == (*old(self)).update_spec(raw),
    ;
}

/// The controller: the smoothing state and the two PWM channels it drives.
#[derive(Clone, Copy, Debug, PartialEq, Eq, Structural)]
pub struct Board {
    pub fan: PwmDevice<FanTimer>,
    pub pump: PwmDevice<PumpTimer>,
    pub avg: Fix,
}

/// The temperature estimate stays within fixed bounds while the smoothed
/// sample stays in the sample range.
proof fn lemma_temp_bits_bounds(s: int)
    requires
        0 <= s <= SAMPLE_MAX * FIX_ONE,
    ensures
        TEMP_OFFSET_BITS - 208896 <= temp_bits_spec(s) <= TEMP_OFFSET_BITS + 210124,
{
    if s <= TEMP_CAL_BITS {
        vstd::arithmetic::div_mod::lemma_div_is_ordered(0, TEMP_CAL_BITS - s, TEMP_SLOPE as int);
        vstd::arithmetic::div_mod::lemma_div_is_ordered(
            TEMP_CAL_BITS - s,
            TEMP_CAL_BITS as int,
            TEMP_SLOPE as int,
        );
    } else {
        vstd::arithmetic::div_mod::lemma_div_is_ordered(0, s - TEMP_CAL_BITS, TEMP_SLOPE as int);
        vstd::arithmetic::div_mod::lemma_div_is_ordered(
            s - TEMP_CAL_BITS,
            SAMPLE_MAX * FIX_ONE - TEMP_CAL_BITS,
            TEMP_SLOPE as int,
        );
    }
}

impl Board {
    /// Acquire the two channels, configured for the target PWM frequency, and
    /// start the smoother at mid scale.
    pub fn new(fan_tc: FanTimer, pump_tc: PumpTimer, target_f: u32) -> (r: Board)
        requires
            1 <= target_f,
        ensures
            r.fan == <PwmDevice<FanTimer> as PwmPhaseInit<FanTimer>>::setup_spec(
                fan_tc,
                target_f,
            ),
            r.pump == <PwmDevice<PumpTimer> as PwmPhaseInit<PumpTimer>>::setup_spec(
                pump_tc,
                target_f,
            ),
            r.avg.bits == INIT_SAMPLE * FIX_ONE,
    {
        Board {
            fan: PwmDevice::setup(fan_tc, target_f),
            pump: PwmDevice::setup(pump_tc, target_f),
            avg: Fix::from_int(INIT_SAMPLE),
        }
    }
}

impl Controller for Board {
    /// A tick needs an in-range sample, an in-range smoothing state, and a
    /// temperature estimate that will not come out negative: below that band
    /// the estimate has no 8-bit reading and the tick is not defined.
    open spec fn update_req(self, raw: u16) -> bool {
        &&& raw <= SAMPLE_MAX
        &&& self.avg.wf_sample()
        &&& temp_bits_spec(smooth_spec(self.avg.bits as int, raw as int)) >= 0
    }

    open spec fn update_spec(self, raw: u16) -> Board {
        let s2 = smooth_spec(self.avg.bits as int, raw as int);
        let t8 = (temp_bits_spec(s2) / FIX_ONE as int) as u8;
        Board {
            fan: self.fan.set_duty_spec(
                <PwmDevice<FanTimer> as FanCurve<u8>>::curve_spec(t8),
            ),
            pump: self.pump.set_duty_spec(
                <PwmDevice<PumpTimer> as FanCurve<u8>>::curve_spec(t8),
            ),
            avg: Fix { bits: s2 as i32 },
        }
    }

    fn update(&mut self, raw: u16) {
        let avg = smooth(self.avg, raw);
        self.avg = avg;
        let temp = avg.temp();
        proof {
            lemma_temp_bits_bounds(avg.bits as int);
            vstd::arithmetic::div_mod::lemma_div_is_ordered(
                temp.bits as int,
                TEMP_OFFSET_BITS + 210124,
                FIX_ONE as int,
            );
        }
        let approx_temp: u8 = temp.floor() as u8;
        let fan_calc = PwmDevice::<FanTimer>::curve(approx_temp);
        self.fan.set_duty(fan_calc);
        let pump_calc = PwmDevice::<PumpTimer>::curve(approx_temp);
        self.pump.set_duty(pump_calc);
    }
}

} // verus!
