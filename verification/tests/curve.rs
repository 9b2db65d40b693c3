use fancontrol::curve::interpolate_curve;
use fancontrol::pwm::FanCurve;
use fancontrol::pwm::FanTimer;
use fancontrol::pwm::PumpTimer;
use fancontrol::pwm::PwmDevice;

#[test]
fn interpolate_between_breakpoints() {
    let steps: [[u8; 2]; 4] = [[0, 0], [10, 40], [20, 60], [30, 100]];
    assert_eq!(interpolate_curve(15, &steps), 50);
    assert_eq!(interpolate_curve(10, &steps), 40);
    assert_eq!(interpolate_curve(0, &steps), 0);
    assert_eq!(interpolate_curve(29, &steps), 96);
    assert_eq!(interpolate_curve(30, &steps), 100);
    assert_eq!(interpolate_curve(35, &steps), 100);
}

#[test]
fn interpolate_truncates_toward_zero() {
    // 1.5 ticks of duty floor to 1.
    let steps: [[u8; 2]; 2] = [[0, 0], [100, 3]];
    assert_eq!(interpolate_curve(50, &steps), 1);
}

#[test]
fn fan_curve_values() {
    assert_eq!(PwmDevice::<FanTimer>::curve(0), 0);
    assert_eq!(PwmDevice::<FanTimer>::curve(25), 10);
    assert_eq!(PwmDevice::<FanTimer>::curve(27), 14);
    assert_eq!(PwmDevice::<FanTimer>::curve(30), 20);
    assert_eq!(PwmDevice::<FanTimer>::curve(40), 73);
    assert_eq!(PwmDevice::<FanTimer>::curve(45), 100);
    assert_eq!(PwmDevice::<FanTimer>::curve(100), 100);
}

#[test]
fn pump_curve_values() {
    assert_eq!(PwmDevice::<PumpTimer>::curve(0), 0);
    assert_eq!(PwmDevice::<PumpTimer>::curve(25), 10);
    assert_eq!(PwmDevice::<PumpTimer>::curve(26), 11);
    assert_eq!(PwmDevice::<PumpTimer>::curve(30), 15);
    assert_eq!(PwmDevice::<PumpTimer>::curve(52), 70);
    assert_eq!(PwmDevice::<PumpTimer>::curve(55), 100);
    assert_eq!(PwmDevice::<PumpTimer>::curve(100), 100);
}

#[test]
fn curves_return_100_at_or_above_last_breakpoint() {
    for t in 100..=255u16 {
        assert_eq!(PwmDevice::<FanTimer>::curve(t as u8), 100);
        assert_eq!(PwmDevice::<PumpTimer>::curve(t as u8), 100);
    }
}

#[test]
fn curves_return_first_duty_at_first_breakpoint() {
    assert_eq!(PwmDevice::<FanTimer>::curve(0), 0);
    assert_eq!(PwmDevice::<PumpTimer>::curve(0), 0);
    let steps: [[u8; 2]; 3] = [[0, 7], [50, 20], [60, 100]];
    assert_eq!(interpolate_curve(0, &steps), 7);
}

#[test]
fn curves_are_monotone_in_temperature() {
    let mut prev_fan = 0u8;
    let mut prev_pump = 0u8;
    for t in 0..=255u16 {
        let fan = PwmDevice::<FanTimer>::curve(t as u8);
        let pump = PwmDevice::<PumpTimer>::curve(t as u8);
        assert!(fan >= prev_fan);
        assert!(pump >= prev_pump);
        assert!(fan <= 100 && pump <= 100);
        prev_fan = fan;
        prev_pump = pump;
    }
}
