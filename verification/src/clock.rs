//! Timer prescaler and period selection: converting a target PWM frequency
//! into a clock prescaler and an 8-bit counter TOP value.

use vstd::prelude::*;

verus! {

/// Counting range of 8-bit phase-correct (dual-slope) PWM: the counter runs
/// up 255 steps and back down, 510 clock ticks per period.
pub const PHASE_RANGE: u32 = 510;

/// Clock prescaler of a synchronous 8-bit timer.
#[derive(Clone, Copy, Debug, PartialEq, Eq, Structural)]
pub enum Prescale {
    Direct,
    Div8,
    Div64,
    Div256,
    Div1024,
}

impl Prescale {
    /// The numeric clock divisor each prescaler selection stands for.
    pub open spec fn divisor_spec(self) -> int {
        match self {
            Prescale::Direct => 1,
            Prescale::Div8 => 8,
            Prescale::Div64 => 64,
            Prescale::Div256 => 256,
            Prescale::Div1024 => 1024,
        }
    }

    /// Explicit ordered prescaler-to-divisor table.
    pub fn divisor(self) -> (d: u16)
        ensures
            d == self.divisor_spec(),
            1 <= d <= 1024,
    {
        match self {
            Prescale::Direct => 1,
            Prescale::Div8 => 8,
            Prescale::Div64 => 64,
            Prescale::Div256 => 256,
            Prescale::Div1024 => 1024,
        }
    }
}

/// Clock prescaler of an asynchronous 8-bit timer, which offers the finer
/// divisions 32 and 128 as well.
#[derive(Clone, Copy, Debug, PartialEq, Eq, Structural)]
pub enum AsyncPrescale {
    Direct,
    Div8,
    Div32,
    Div64,
    Div128,
    Div256,
    Div1024,
}

impl AsyncPrescale {
    /// The numeric clock divisor each prescaler selection stands for.
    pub open spec fn divisor_spec(self) -> int {
        match self {
            AsyncPrescale::Direct => 1,
            AsyncPrescale::Div8 => 8,
            AsyncPrescale::Div32 => 32,
            AsyncPrescale::Div64 => 64,
            AsyncPrescale::Div128 => 128,
            AsyncPrescale::Div256 => 256,
            AsyncPrescale::Div1024 => 1024,
        }
    }

    /// Explicit ordered prescaler-to-divisor table.
    pub fn divisor(self) -> (d: u16)
        ensures
            d == self.divisor_spec(),
            1 <= d <= 1024,
    {
        match self {
            AsyncPrescale::Direct => 1,
            AsyncPrescale::Div8 => 8,
            AsyncPrescale::Div32 => 32,
            AsyncPrescale::Div64 => 64,
            AsyncPrescale::Div128 => 128,
            AsyncPrescale::Div256 => 256,
            AsyncPrescale::Div1024 => 1024,
        }
    }
}

/// How many counting ranges of phase-correct PWM fit between the CPU clock
/// and the target frequency before any prescaling.
pub open spec fn approx_range_spec(cpu_hz: int, target_hz: int) -> int {
    cpu_hz / target_hz / PHASE_RANGE as int
}

/// The coarsest-but-sufficient division for a synchronous timer: the first
/// prescaler, in increasing order, whose divisor exceeds the needed range;
/// no division when the range vanishes, and the largest division when the
/// range exceeds every threshold.
pub open spec fn best_prescaler_spec(cpu_hz: int, target_hz: int) -> Prescale {
    let x = approx_range_spec(cpu_hz, target_hz);
    if x == 0 {
        Prescale::Direct
    } else if x < 8 {
        Prescale::Div8
    } else if x < 64 {
        Prescale::Div64
    } else if x < 256 {
        Prescale::Div256
    } else {
        Prescale::Div1024
    }
}

/// Select the synchronous-timer prescaler for a target PWM frequency.
pub fn best_prescaler(cpu_hz: u32, target_hz: u32) -> (p: Prescale)
    requires
        target_hz >= 1,
    ensures
        p == best_prescaler_spec(cpu_hz as int, target_hz as int),
{
    let x = cpu_hz / target_hz / PHASE_RANGE;
    if x == 0 {
        Prescale::Direct
    } else if x < 8 {
        Prescale::Div8
    } else if x < 64 {
        Prescale::Div64
    } else if x < 256 {
        Prescale::Div256
    } else {
        Prescale::Div1024
    }
}

/// The asynchronous-timer selection over the finer set of divisors, with the
/// same fallbacks: no division for a vanishing range, the largest division
/// for one beyond every threshold.
pub open spec fn best_prescaler_async_spec(cpu_hz: int, target_hz: int) -> AsyncPrescale {
    let x = approx_range_spec(cpu_hz, target_hz);
    if x == 0 {
        AsyncPrescale::Direct
    } else if x < 8 {
        AsyncPrescale::Div8
    } else if x < 32 {
        AsyncPrescale::Div32
    } else if x < 64 {
        AsyncPrescale::Div64
    } else if x < 128 {
        AsyncPrescale::Div128
    } else if x < 256 {
        AsyncPrescale::Div256
    } else {
        AsyncPrescale::Div1024
    }
}

/// Select the asynchronous-timer prescaler for a target PWM frequency.
pub fn best_prescaler_async(cpu_hz: u32, target_hz: u32) -> (p: AsyncPrescale)
    requires
        target_hz >= 1,
    ensures
        p == best_prescaler_async_spec(cpu_hz as int, target_hz as int),
{
    let x = cpu_hz / target_hz / PHASE_RANGE;
    if x == 0 {
        AsyncPrescale::Direct
    } else if x < 8 {
        AsyncPrescale::Div8
    } else if x < 32 {
        AsyncPrescale::Div32
    } else if x < 64 {
        AsyncPrescale::Div64
    } else if x < 128 {
        AsyncPrescale::Div128
    } else if x < 256 {
        AsyncPrescale::Div256
    } else {
        AsyncPrescale::Div1024
    }
}

/// Counter TOP value for phase-correct PWM: half the prescaled period, since
/// the counter runs up and then down again. Truncated to 8 bits, as the
/// hardware register is; a period too long for 8 bits silently wraps.
pub fn clock_top_phase(cpu_hz: u32, pwm_hz: u32, prescaler: u32) -> (top: u8)
    requires
        pwm_hz >= 1,
        prescaler >= 1,
    ensures
        top == cpu_hz as int / pwm_hz as int / prescaler as int / 2 % 256,
{
    (cpu_hz / pwm_hz / prescaler / 2 % 256) as u8
}

/// Counter TOP value for fast (single-slope) PWM: the full prescaled period,
/// less the one count the counter spends at TOP. Truncated to 8 bits.
pub fn clock_top_fast(cpu_hz: u32, pwm_hz: u32, prescaler: u32) -> (top: u8)
    requires
        pwm_hz >= 1,
        prescaler >= 1,
        cpu_hz as int / pwm_hz as int / prescaler as int >= 1,
    ensures
        top == (cpu_hz as int / pwm_hz as int / prescaler as int - 1) % 256,
{
    ((cpu_hz / pwm_hz / prescaler - 1) % 256) as u8
}

/// Round trip of the period selection: whenever the selected TOP fits the
/// 8-bit counter, the frequency the timer will actually count at brackets the
/// target. The configured period `2 * p * top` CPU ticks is never longer than
/// the target period, and lengthening TOP by one would overshoot it, so the
/// counting frequency is at least `pwm_hz` and within one TOP step of it.
pub proof fn lemma_clock_round_trip(cpu_hz: int, pwm_hz: int, p: int)
    requires
        0 <= cpu_hz,
        1 <= pwm_hz,
        1 <= p,
        1 <= cpu_hz / pwm_hz / p / 2 <= 255,
    ensures
        2 * p * (cpu_hz / pwm_hz / p / 2) * pwm_hz <= cpu_hz,
        cpu_hz < 2 * p * (cpu_hz / pwm_hz / p / 2 + 1) * pwm_hz,
        pwm_hz <= cpu_hz / (2 * p * (cpu_hz / pwm_hz / p / 2)),
{
    let top = cpu_hz / pwm_hz / p / 2;
    assert(pwm_hz * p > 0) by (nonlinear_arith)
        requires pwm_hz >= 1 && p >= 1;
    vstd::arithmetic::div_mod::lemma_div_denominator(cpu_hz, pwm_hz, p);
    vstd::arithmetic::div_mod::lemma_div_denominator(cpu_hz, pwm_hz * p, 2);
    assert(top == cpu_hz / (pwm_hz * p * 2)) by {
        assert(pwm_hz * p * 2 == (pwm_hz * p) * 2) by (nonlinear_arith);
    }
    let d = pwm_hz * p * 2;
    vstd::arithmetic::div_mod::lemma_fundamental_div_mod(cpu_hz, d);
    vstd::arithmetic::div_mod::lemma_mod_bound(cpu_hz, d);
    assert(cpu_hz == d * top + cpu_hz % d);
    assert(d * top == 2 * p * top * pwm_hz) by (nonlinear_arith)
        requires d == pwm_hz * p * 2;
    assert(d * top <= cpu_hz);
    assert(cpu_hz < d * top + d);
    assert(d * top + d == 2 * p * (top + 1) * pwm_hz) by (nonlinear_arith)
        requires d == pwm_hz * p * 2;
    let period = 2 * p * top;
    assert(period >= 1) by (nonlinear_arith)
        requires p >= 1 && top >= 1 && period == 2 * p * top;
    assert(period * pwm_hz <= cpu_hz) by {
        assert(period * pwm_hz == d * top) by (nonlinear_arith)
            requires d == pwm_hz * p * 2 && period == 2 * p * top;
    }
    vstd::arithmetic::div_mod::lemma_div_is_ordered(period * pwm_hz, cpu_hz, period);
    vstd::arithmetic::div_mod::lemma_div_by_multiple(pwm_hz, period);
    assert(pwm_hz * period == period * pwm_hz) by (nonlinear_arith);
}

} // verus!
