//! The PWM channel abstraction: a capability interface implemented once per
//! timer peripheral, plus the two compiled-in duty curves.

use vstd::prelude::*;

use crate::clock::best_prescaler;
use crate::clock::best_prescaler_spec;
use crate::clock::clock_top_phase;
use crate::clock::Prescale;
use crate::curve::curve_duties_monotone;
use crate::curve::curve_wf;
use crate::curve::interp_spec;
use crate::curve::interpolate_curve;

verus! {

broadcast use vstd::array::group_array_axioms;

/// CPU clock of the target board, in Hz.
pub const CPU_HZ: u32 = 16_000_000;

/// Model of the fan timer peripheral: the registers the control core
/// programs. `top` is the TOP comparison register, `compare` the duty
/// comparison register, `prescale` the clock-select field.
#[derive(Clone, Copy, Debug, PartialEq, Eq, Structural)]
pub struct FanTimer {
    pub top: u8,
    pub compare: u8,
    pub prescale: Prescale,
}

/// Model of the pump timer peripheral, a structurally distinct counter with
/// the same three programmable fields.
#[derive(Clone, Copy, Debug, PartialEq, Eq, Structural)]
pub struct PumpTimer {
    pub top: u8,
    pub compare: u8,
    pub prescale: Prescale,
}

/// A PWM channel: a timer peripheral bound to the counter TOP it was
/// configured with.
#[derive(Clone, Copy, Debug, PartialEq, Eq, Structural)]
pub struct PwmDevice<Tc> {
    pub tc: Tc,
    pub max_ticks: u8,
}

/// Configure a timer for phase-correct PWM at a target frequency.
pub trait PwmPhaseInit<TC> where Self: Sized {
    /// Target frequencies the configuration is defined for.
    spec fn setup_req(target_f: u32) -> bool;

    /// The configured channel: which registers setup programs, and to what.
    spec fn setup_spec(tc: TC, target_f: u32) -> Self;

    /// Program the timer for phase-correct PWM and record its TOP.
    fn setup(tc: TC, target_f: u32) -> (r: Self)
        requires
            Self::setup_req(target_f),
        ensures
            r == Self::setup_spec(tc, target_f),
    ;
}

/// Set a channel's duty cycle as a percentage of its period.
pub trait SetDuty where Self: Sized {
    /// The channel after the write: `ticks = top * percent / 100` goes to the
    /// duty comparison register and nothing else changes.
    spec fn set_duty_spec(self, percent: u8) -> Self;

    /// Write the compare value for a duty percentage.
    fn set_duty(&mut self, percent: u8)
        requires
            percent <= 100,
        ensures
            *final(self) == (*old(self)).set_duty_spec(percent),
    ;
}

/// The compiled-in duty curve of a channel type.
pub trait FanCurve<T> {
    /// The duty each temperature maps to.
    spec fn curve_spec(temperature: T) -> u8;

    /// Interpolate the channel's curve at a temperature.
    fn curve(temperature: T) -> (r: u8)
        ensures
            r == Self::curve_spec(temperature),
            r <= 100,
    ;
}

/// The fan's breakpoint table.
pub open spec fn fan_table() -> Seq<[u8; 2]> {
    seq![[0u8, 0u8], [25u8, 10u8], [30u8, 20u8], [45u8, 100u8], [100u8, 100u8]]
}

/// The pump's breakpoint table.
pub open spec fn pump_table() -> Seq<[u8; 2]> {
    seq![
        [0u8, 0u8],
        [25u8, 10u8],
        [30u8, 15u8],
        [35u8, 20u8],
        [40u8, 30u8],
        [50u8, 50u8],
        [55u8, 100u8],
        [100u8, 100u8],
    ]
}

/// Both compiled-in tables are well formed, start at temperature 0, and have
/// duties that never step down.
pub proof fn lemma_tables_wf()
    ensures
        curve_wf(fan_table()),
        curve_duties_monotone(fan_table()),
        fan_table()[0][0] == 0,
        curve_wf(pump_table()),
        curve_duties_monotone(pump_table()),
        pump_table()[0][0] == 0,
{
    let f = fan_table();
    assert forall|i: int, j: int| 0 <= i < j < f.len() implies #[trigger] f[i][0]
        < #[trigger] f[j][0] by {
    }
    assert forall|i: int| 0 <= i < f.len() implies #[trigger] f[i][1] <= 100 by {
    }
    assert forall|i: int, j: int| 0 <= i <= j < f.len() implies #[trigger] f[i][1]
        <= #[trigger] f[j][1] by {
    }
    let p = pump_table();
    assert forall|i: int, j: int| 0 <= i < j < p.len() implies #[trigger] p[i][0]
        < #[trigger] p[j][0] by {
    }
    assert forall|i: int| 0 <= i < p.len() implies #[trigger] p[i][1] <= 100 by {
    }
    assert forall|i: int, j: int| 0 <= i <= j < p.len() implies #[trigger] p[i][1]
        <= #[trigger] p[j][1] by {
    }
}

impl PwmPhaseInit<FanTimer> for PwmDevice<FanTimer> {
    open spec fn setup_req(target_f: u32) -> bool {
        1 <= target_f
    }

    open spec fn setup_spec(tc: FanTimer, target_f: u32) -> Self {
        let p = best_prescaler_spec(CPU_HZ as int, target_f as int);
        let top = (CPU_HZ as int / target_f as int / p.divisor_spec() / 2 % 256) as u8;
        PwmDevice {
            tc: FanTimer { top: top, compare: tc.compare, prescale: p },
            max_ticks: top,
        }
    }

    fn setup(tc: FanTimer, target_f: u32) -> (r: Self) {
        let prescale = best_prescaler(CPU_HZ, target_f);
        let prescale_i: u16 = prescale.divisor();
        let max_ticks: u8 = clock_top_phase(CPU_HZ, target_f, prescale_i as u32);
        let mut tc = tc;
        tc.top = max_ticks;
        tc.prescale = prescale;
        PwmDevice { tc, max_ticks }
    }
}

impl PwmPhaseInit<PumpTimer> for PwmDevice<PumpTimer> {
    open spec fn setup_req(target_f: u32) -> bool {
        1 <= target_f
    }

    open spec fn setup_spec(tc: PumpTimer, target_f: u32) -> Self {
        let p = best_prescaler_spec(CPU_HZ as int, target_f as int);
        let top = (CPU_HZ as int / target_f as int / p.divisor_spec() / 2 % 256) as u8;
        PwmDevice {
            tc: PumpTimer { top: top, compare: tc.compare, prescale: p },
            max_ticks: top,
        }
    }

    fn setup(tc: PumpTimer, target_f: u32) -> (r: Self) {
        let prescale = best_prescaler(CPU_HZ, target_f);
        let prescale_i: u16 = prescale.divisor();
        let max_ticks: u8 = clock_top_phase(CPU_HZ, target_f, prescale_i as u32);
        let mut tc = tc;
        tc.top = max_ticks;
        tc.prescale = prescale;
        PwmDevice { tc, max_ticks }
    }
}

impl SetDuty for PwmDevice<FanTimer> {
    open spec fn set_duty_spec(self, percent: u8) -> Self {
        PwmDevice {
            tc: FanTimer {
                top: self.tc.top,
                compare: (self.max_ticks * percent / 100) as u8,
                prescale: self.tc.prescale,
            },
            max_ticks: self.max_ticks,
        }
    }

    fn set_duty(&mut self, percent: u8) {
        assert(self.max_ticks * percent <= 255 * 100) by (nonlinear_arith)
            requires self.max_ticks <= 255 && percent <= 100;
        let ticks: u16 = (self.max_ticks as u16) * (percent as u16) / 100;
        self.tc.compare = ticks as u8;
    }
}

impl SetDuty for PwmDevice<PumpTimer> {
    open spec fn set_duty_spec(self, percent: u8) -> Self {
        PwmDevice {
            tc: PumpTimer {
                top: self.tc.top,
                compare: (self.max_ticks * percent / 100) as u8,
                prescale: self.tc.prescale,
            },
            max_ticks: self.max_ticks,
        }
    }

    fn set_duty(&mut self, percent: u8) {
        assert(self.max_ticks * percent <= 255 * 100) by (nonlinear_arith)
            requires self.max_ticks <= 255 && percent <= 100;
        let ticks: u16 = (self.max_ticks as u16) * (percent as u16) / 100;
        self.tc.compare = ticks as u8;
    }
}

impl FanCurve<u8> for PwmDevice<FanTimer> {
    open spec fn curve_spec(temperature: u8) -> u8 {
        interp_spec(fan_table(), temperature as int) as u8
    }

    fn curve(temperature: u8) -> (r: u8) {
        let steps: [[u8; 2]; 5] = [
            [0, 0],
            [25, 10],
            [30, 20],
            [45, 100],
            [100, 100],
        ];
        proof {
            lemma_tables_wf();
            assert(steps@ =~= fan_table());
        }
        interpolate_curve(temperature, steps.as_slice())
    }
}

impl FanCurve<u8> for PwmDevice<PumpTimer> {
    open spec fn curve_spec(temperature: u8) -> u8 {
        interp_spec(pump_table(), temperature as int) as u8
    }

    fn curve(temperature: u8) -> (r: u8) {
        let steps: [[u8; 2]; 8] = [
            [0, 0],
            [25, 10],
            [30, 15],
            [35, 20],
            [40, 30],
            [50, 50],
            [55, 100],
            [100, 100],
        ];
        proof {
            lemma_tables_wf();
            assert(steps@ =~= pump_table());
        }
        interpolate_curve(temperature, steps.as_slice())
    }
}

} // verus!
