use fancontrol::clock::Prescale;
use fancontrol::control::Board;
use fancontrol::control::Controller;
use fancontrol::fix::smooth;
use fancontrol::fix::Fix;
use fancontrol::fix::Temp;
use fancontrol::pwm::FanCurve;
use fancontrol::pwm::FanTimer;
use fancontrol::pwm::PumpTimer;
use fancontrol::pwm::PwmDevice;
use fancontrol::pwm::SetDuty;

fn fresh_fan_timer() -> FanTimer {
    FanTimer { top: 0, compare: 0, prescale: Prescale::Direct }
}

fn fresh_pump_timer() -> PumpTimer {
    PumpTimer { top: 0, compare: 0, prescale: Prescale::Direct }
}

#[test]
fn set_duty_computes_compare_ticks() {
    let mut dev = PwmDevice { tc: fresh_fan_timer(), max_ticks: 100 };
    dev.set_duty(50);
    assert_eq!(dev.tc.compare, 50);
    let mut dev = PwmDevice { tc: fresh_fan_timer(), max_ticks: 255 };
    dev.set_duty(100);
    assert_eq!(dev.tc.compare, 255);
    // 1.5 ticks floor to 1.
    let mut dev = PwmDevice { tc: fresh_pump_timer(), max_ticks: 3 };
    dev.set_duty(50);
    assert_eq!(dev.tc.compare, 1);
}

#[test]
fn smoothing_step_exact_value() {
    let avg = smooth(Fix::from_int(512), 1023);
    // 3277 * (512 << 12) / 4096 + 819 * 1023
    assert_eq!(avg.bits, 1_677_824 + 837_837);
}

#[test]
fn smoothing_converges_within_one_percent_in_50_ticks() {
    let mut avg = Fix::from_int(512);
    let target = 1023i32 * 4096;
    let mut err = (avg.bits - target).abs();
    for _ in 0..50 {
        avg = smooth(avg, 1023);
        let e = (avg.bits - target).abs();
        assert!(e <= err);
        err = e;
    }
    assert!(err <= target / 100);
    // And smoothing toward mid scale from mid scale is a fixed point.
    let steady = smooth(Fix::from_int(512), 512);
    assert_eq!(steady.bits, 512 * 4096);
}

#[test]
fn temperature_estimate_values() {
    let t = Fix::from_int(512).temp();
    // (-512 + 510) / -10 + 25 == 25.2 in Q20.12, floored to 25 degrees.
    assert_eq!(t.bits, 103_219);
    assert_eq!(t.floor(), 25);
    assert_eq!(Fix::from_int(1023).temp().bits, 312_524);
    assert_eq!(Fix::from_int(1023).temp().floor(), 76);
    assert_eq!(Fix::from_int(510).temp().floor(), 25);
    // Below the calibrated band the estimate goes negative.
    assert_eq!(Fix::from_int(0).temp().bits, -106_496);
}

#[test]
fn board_new_configures_both_channels() {
    let board = Board::new(fresh_fan_timer(), fresh_pump_timer(), 25_000);
    assert_eq!(board.fan.max_ticks, 40);
    assert_eq!(board.fan.tc.top, 40);
    assert_eq!(board.fan.tc.prescale, Prescale::Div8);
    assert_eq!(board.pump.max_ticks, 40);
    assert_eq!(board.pump.tc.top, 40);
    assert_eq!(board.pump.tc.prescale, Prescale::Div8);
    assert_eq!(board.avg.bits, 512 * 4096);
}

#[test]
fn tick_at_mid_scale_reads_25_degrees_and_10_percent() {
    let mut board = Board::new(fresh_fan_timer(), fresh_pump_timer(), 25_000);
    board.update(512);
    // Smoothed value stays 512, temperature reads 25, both curves give 10%,
    // and 10% of the 40-tick period is 4 compare ticks.
    assert_eq!(board.avg.bits, 512 * 4096);
    assert_eq!(board.fan.tc.compare, 4);
    assert_eq!(board.pump.tc.compare, 4);
}

#[test]
fn hot_samples_drive_duty_to_full() {
    let mut board = Board::new(fresh_fan_timer(), fresh_pump_timer(), 25_000);
    for _ in 0..100 {
        board.update(1023);
    }
    // The average has converged near 1023, the estimate near 76 degrees,
    // and both curves saturate at 100%: the full 40-tick period.
    assert_eq!(board.fan.tc.compare, 40);
    assert_eq!(board.pump.tc.compare, 40);
    assert_eq!(board.avg.bits / 4096, 1022);
}

#[test]
fn cool_samples_drop_duty_toward_zero() {
    let mut board = Board::new(fresh_fan_timer(), fresh_pump_timer(), 25_000);
    for _ in 0..200 {
        board.update(600);
    }
    // Steady state just under 600 counts reads 33 degrees, and the compare
    // register tracks the interpolated fan duty for that reading.
    let t = board.avg.temp();
    assert_eq!(t.floor(), 33);
    let fan_duty = PwmDevice::<FanTimer>::curve(t.floor() as u8) as u32;
    assert_eq!(board.fan.tc.compare as u32, board.fan.max_ticks as u32 * fan_duty / 100);
}
