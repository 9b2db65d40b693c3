use fancontrol::clock::best_prescaler;
use fancontrol::clock::best_prescaler_async;
use fancontrol::clock::clock_top_fast;
use fancontrol::clock::clock_top_phase;
use fancontrol::clock::AsyncPrescale;
use fancontrol::clock::Prescale;

#[test]
fn prescaler_divisor_table() {
    assert_eq!(Prescale::Direct.divisor(), 1);
    assert_eq!(Prescale::Div8.divisor(), 8);
    assert_eq!(Prescale::Div64.divisor(), 64);
    assert_eq!(Prescale::Div256.divisor(), 256);
    assert_eq!(Prescale::Div1024.divisor(), 1024);
}

#[test]
fn async_prescaler_divisor_table() {
    assert_eq!(AsyncPrescale::Direct.divisor(), 1);
    assert_eq!(AsyncPrescale::Div8.divisor(), 8);
    assert_eq!(AsyncPrescale::Div32.divisor(), 32);
    assert_eq!(AsyncPrescale::Div64.divisor(), 64);
    assert_eq!(AsyncPrescale::Div128.divisor(), 128);
    assert_eq!(AsyncPrescale::Div256.divisor(), 256);
    assert_eq!(AsyncPrescale::Div1024.divisor(), 1024);
}

#[test]
fn selection_at_direct_div8_boundary() {
    // 16 MHz / 25 kHz / 510 == 1: one counting range does not fit without
    // division only just, and the selection steps up to divide-by-8.
    let p = best_prescaler(16_000_000, 25_000);
    assert_eq!(p, Prescale::Div8);
    let top = clock_top_phase(16_000_000, 25_000, p.divisor() as u32);
    assert_eq!(top, 40);
    assert!(top <= 255);
    // The configured channel counts at exactly the target frequency here.
    assert_eq!(16_000_000 / (2 * 8 * top as u32), 25_000);
}

#[test]
fn selection_boundaries() {
    // Range 0: no division.
    assert_eq!(best_prescaler(16_000_000, 62_500), Prescale::Direct);
    // Range 7 still fits under divide-by-8; range 8 steps up to 64.
    assert_eq!(best_prescaler(3_570, 1), Prescale::Div8);
    assert_eq!(best_prescaler(4_080, 1), Prescale::Div64);
    // Range beyond the largest threshold falls back to the largest division.
    assert_eq!(best_prescaler(4_294_967_295, 1), Prescale::Div1024);
}

#[test]
fn async_selection_boundaries() {
    assert_eq!(best_prescaler_async(16_000_000, 62_500), AsyncPrescale::Direct);
    assert_eq!(best_prescaler_async(16_000_000, 25_000), AsyncPrescale::Div8);
    // Range 16 lands in the finer divide-by-32 slot.
    assert_eq!(best_prescaler_async(8_160, 1), AsyncPrescale::Div32);
    assert_eq!(best_prescaler_async(36_720, 1), AsyncPrescale::Div128);
    assert_eq!(best_prescaler_async(4_294_967_295, 1), AsyncPrescale::Div1024);
}

#[test]
fn top_values() {
    assert_eq!(clock_top_phase(16_000_000, 25_000, 8), 40);
    assert_eq!(clock_top_phase(8_000_000, 25_000, 8), 20);
    assert_eq!(clock_top_fast(16_000_000, 62_500, 1), 255);
    assert_eq!(clock_top_fast(16_000_000, 1_000, 64), 249);
}

#[test]
fn round_trip_frequency_within_one_top_step() {
    for &target in &[20_000u32, 25_000, 31_000, 40_000] {
        let p = best_prescaler(16_000_000, target);
        let d = p.divisor() as u32;
        let top = clock_top_phase(16_000_000, target, d) as u32;
        assert!(top >= 1 && top <= 255);
        // Reading back top and prescaler reproduces a counting frequency at
        // or above the target, and one more count would drop below it.
        let achieved = 16_000_000 / (2 * d * top);
        assert!(achieved >= target);
        assert!(16_000_000 / (2 * d * (top + 1)) < target);
    }
}
