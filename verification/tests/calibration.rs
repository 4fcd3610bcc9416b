use pulse_loop::calibration::{bisection, Actuators, Calibrator, Parameter, Saturation};
use pulse_loop::data_sending::RawData;
use pulse_loop::dc_calibration::{resistor, CurrentSearch, Resistors, CURRENT_MAX};
use pulse_loop::offset_measuring::OffsetCurrents;
use pulse_loop::quantity::{clamp_to, limit, photocurrent, saturate, Current, Resistance, Voltage};

fn pa(picoamperes: i64) -> Current {
    Current { picoamperes }
}

fn uv(microvolts: i32) -> Voltage {
    Voltage { microvolts }
}

fn actuators(led: i64, offset: i64, ohms: u32) -> Actuators {
    Actuators { led_current: pa(led), offset_current: pa(offset), resistor: Resistance { ohms } }
}

#[test]
fn new_calibrator_has_default_parameters() {
    let calibrator = Calibrator::new(12_000);
    assert_eq!(calibrator.alpha(), 12_000);
    assert_eq!(calibrator.led_current_min(), pa(0));
    assert_eq!(calibrator.led_current_max(), pa(50_000_000_000));
    assert_eq!(calibrator.offset_current_min(), pa(-7_000_000));
    assert_eq!(calibrator.offset_current_max(), pa(7_000_000));
    assert_eq!(calibrator.offset_current_set_point(), pa(-6_500_000));
    assert_eq!(calibrator.adc_set_point(), uv(500_000));
    assert_eq!(calibrator.adc_working_threshold(), uv(300_000));
}

#[test]
fn sample_inside_window_asks_for_nothing() {
    let calibrator = Calibrator::new(350);
    let state = actuators(1_000_000_000, -6_500_000, 10_000);
    for sample in [200_000, 200_001, 500_000, 799_999, 800_000] {
        assert_eq!(calibrator.calibrate_dc(uv(sample), state), None);
    }
}

#[test]
fn sample_outside_window_asks_for_a_correction() {
    let calibrator = Calibrator::new(350);
    let state = actuators(1_000_000_000, -6_500_000, 10_000);
    assert!(calibrator.calibrate_dc(uv(199_999), state).is_some());
    assert!(calibrator.calibrate_dc(uv(800_001), state).is_some());
}

#[test]
fn led_request_follows_the_error() {
    let calibrator = Calibrator::new(350);
    // The sample is 400 mV low over 2 x 10 kOhm: 20 uA are missing at the
    // photodiode, 350 times as much at the LED.
    let state = actuators(1_000_000_000, -6_500_000, 10_000);
    assert_eq!(calibrator.calibrate_dc(uv(100_000), state), Some(pa(8_000_000_000)));
    // An offset current away from its set point adds to the error.
    let state = actuators(1_000_000_000, -5_500_000, 10_000);
    assert_eq!(calibrator.calibrate_dc(uv(100_000), state), Some(pa(8_350_000_000)));
}

#[test]
fn led_request_is_clamped_to_its_bounds() {
    let calibrator = Calibrator::new(12_000);
    let state = actuators(1_000_000_000, -6_500_000, 10_000);
    // 20 uA x 12000 = 240 mA, far above the maximum of 50 mA.
    assert_eq!(calibrator.calibrate_dc(uv(100_000), state), Some(pa(50_000_000_000)));
    // 1.5 V above the set point: the request is negative.
    assert_eq!(calibrator.calibrate_dc(uv(2_000_000), state), Some(pa(0)));
}

#[test]
fn offset_takes_what_the_led_left() {
    let calibrator = Calibrator::new(350);
    let state = actuators(1_000_000_000, -6_500_000, 10_000);
    // The LED was asked for 8 mA and applied 7.93 mA: 70 uA / 350 = 0.2 uA
    // are left to the offset current.
    let correction = calibrator.offset_correction(uv(100_000), state, pa(7_930_000_000));
    assert_eq!(correction.command, pa(-6_300_000));
    assert_eq!(correction.saturation, Saturation::Within);
    // The LED applied exactly what was asked: the offset goes to its set point.
    let correction = calibrator.offset_correction(uv(100_000), state, pa(8_000_000_000));
    assert_eq!(correction.command, pa(-6_500_000));
    assert_eq!(correction.saturation, Saturation::Within);
}

#[test]
fn offset_request_is_clamped_to_its_bounds() {
    let calibrator = Calibrator::new(350);
    let state = actuators(1_000_000_000, -6_500_000, 10_000);
    // The LED applied much less than asked: the rest exceeds the maximum.
    let high = calibrator.offset_correction(uv(100_000), state, pa(0));
    assert_eq!(high.command, pa(7_000_000));
    assert_eq!(high.saturation, Saturation::TooHigh);
    // The LED applied more than asked: the rest is below the minimum.
    let low = calibrator.offset_correction(uv(100_000), state, pa(9_000_000_000));
    assert_eq!(low.command, pa(-7_000_000));
    assert_eq!(low.saturation, Saturation::TooLow);
}

#[test]
fn parameters_are_written_while_running() {
    let mut calibrator = Calibrator::new(350);
    assert!(calibrator.set(Parameter::AdcSetPoint, 800_000));
    assert!(calibrator.set(Parameter::AdcWorkingThreshold, 100_000));
    assert!(calibrator.set(Parameter::LedCurrentMax, 20_000_000_000));
    assert!(calibrator.set(Parameter::Alpha, 1_000));
    assert_eq!(calibrator.get(Parameter::AdcSetPoint), 800_000);
    assert_eq!(calibrator.get(Parameter::Alpha), 1_000);
    let state = actuators(0, -6_500_000, 10_000);
    assert_eq!(calibrator.calibrate_dc(uv(750_000), state), None);
    // 200 mV low: 10 uA x 1000 = 10 mA.
    assert_eq!(calibrator.calibrate_dc(uv(600_000), state), Some(pa(10_000_000_000)));
    // 700 mV low: 35 mA, above the new maximum.
    assert_eq!(calibrator.calibrate_dc(uv(100_000), state), Some(pa(20_000_000_000)));
}

#[test]
fn unusable_parameters_are_refused() {
    let mut calibrator = Calibrator::new(350);
    let before = calibrator;
    assert!(!calibrator.set(Parameter::Alpha, 0));
    assert!(!calibrator.set(Parameter::Alpha, -5));
    assert!(!calibrator.set(Parameter::Alpha, 0x1_0000_0000));
    assert!(!calibrator.set(Parameter::AdcSetPoint, 0x8000_0000));
    assert!(!calibrator.set(Parameter::AdcWorkingThreshold, -0x8000_0001));
    assert!(!calibrator.set_alpha(0));
    assert_eq!(calibrator, before);
    assert!(calibrator.set_alpha(7));
    assert_eq!(calibrator.alpha(), 7);
}

#[test]
fn bisection_halves_the_interval() {
    let mut low = pa(0);
    let mut high = pa(100_000_000_000);
    let mut middle = pa(50_000_000_000);
    bisection(&mut low, &mut high, &mut middle, true);
    assert_eq!((low, high, middle), (pa(50_000_000_000), pa(100_000_000_000), pa(75_000_000_000)));
    bisection(&mut low, &mut high, &mut middle, false);
    assert_eq!((low, high, middle), (pa(50_000_000_000), pa(75_000_000_000), pa(62_500_000_000)));
}

#[test]
fn photocurrent_is_voltage_over_twice_the_resistance() {
    assert_eq!(photocurrent(uv(1_000_000), Resistance { ohms: 500_000 }), pa(1_000_000));
    assert_eq!(photocurrent(uv(-1_000_000), Resistance { ohms: 500_000 }), pa(-1_000_000));
    // Rounded towards zero.
    assert_eq!(photocurrent(uv(1), Resistance { ohms: 300_000 }), pa(1));
    assert_eq!(photocurrent(uv(-1), Resistance { ohms: 300_000 }), pa(-1));
    assert_eq!(photocurrent(uv(1), Resistance { ohms: 600_000 }), pa(0));
    assert_eq!(photocurrent(uv(-1), Resistance { ohms: 600_000 }), pa(0));
}

#[test]
fn wide_values_are_limited() {
    assert_eq!(clamp_to(5, pa(10), pa(20)), pa(10));
    assert_eq!(clamp_to(25, pa(10), pa(20)), pa(20));
    assert_eq!(clamp_to(15, pa(10), pa(20)), pa(15));
    assert_eq!(saturate(i128::MAX), pa(i64::MAX));
    assert_eq!(saturate(i128::MIN), pa(i64::MIN));
    assert_eq!(saturate(-3), pa(-3));
    assert_eq!(limit(i128::MAX), i64::MAX);
    assert_eq!(limit(i128::MIN), i64::MIN);
    assert_eq!(limit(42), 42);
}

#[test]
fn new_table_holds_nominal_currents() {
    let table = OffsetCurrents::new();
    assert_eq!(OffsetCurrents::nominal_current(0), pa(-7_000_000));
    assert_eq!(OffsetCurrents::nominal_current(15), pa(0));
    assert_eq!(OffsetCurrents::nominal_current(30), pa(7_000_000));
    assert_eq!(OffsetCurrents::nominal_current(1), pa(-6_533_334));
    for code in 0..31 {
        let nominal = OffsetCurrents::nominal_current(code);
        assert_eq!(OffsetCurrents::code_of(nominal), code);
        assert_eq!(table.accurate(nominal), nominal);
    }
}

#[test]
fn lookup_takes_the_nearest_code() {
    assert_eq!(OffsetCurrents::code_of(pa(-7_000_000)), 0);
    assert_eq!(OffsetCurrents::code_of(pa(-9_000_000)), 0);
    assert_eq!(OffsetCurrents::code_of(pa(-6_800_000)), 0);
    assert_eq!(OffsetCurrents::code_of(pa(-6_700_000)), 1);
    assert_eq!(OffsetCurrents::code_of(pa(0)), 15);
    assert_eq!(OffsetCurrents::code_of(pa(233_333)), 15);
    assert_eq!(OffsetCurrents::code_of(pa(233_334)), 16);
    assert_eq!(OffsetCurrents::code_of(pa(7_000_000)), 30);
}

#[test]
fn measured_currents_replace_nominal_ones() {
    let mut table = OffsetCurrents::new();
    let resistor = Resistance { ohms: 10_000 };
    let readings: Vec<Voltage> = (0..31).map(|code| uv(code * 1_000 - 10_000)).collect();
    table.measure(&readings, resistor);
    // Code 0 read -10 mV over 2 x 10 kOhm: -0.5 uA.
    assert_eq!(table.accurate(pa(-7_000_000)), pa(-500_000));
    // Code 15 read 5 mV: 0.25 uA.
    assert_eq!(table.accurate(pa(0)), pa(250_000));
    assert_eq!(table.accurate(pa(7_000_000)), pa(1_000_000));
    table.record(15, uv(20_000), resistor);
    assert_eq!(table.accurate(pa(100_000)), pa(1_000_000));
    assert_eq!(table.accurate(pa(-400_000)), pa(200_000));
}

#[test]
fn resistors_come_in_eight_steps() {
    let ohms: Vec<u32> = (0..8).map(|step| resistor(step).unwrap().ohms).collect();
    assert_eq!(
        ohms,
        vec![10_000, 25_000, 50_000, 100_000, 250_000, 500_000, 1_000_000, 2_000_000]
    );
    assert_eq!(resistor(8), None);
}

#[test]
fn weak_channels_get_the_next_resistor() {
    let target = uv(800_000);
    let first = Resistance { ohms: 10_000 };
    let next = Resistance { ohms: 25_000 };
    let mut resistors = Resistors { resistor1: first, resistor2: first };
    let weak_green =
        RawData { ambient: uv(0), led1: uv(799_999), led2: uv(800_000), led3: uv(900_000) };
    assert!(!resistors.raise(next, weak_green, target));
    assert_eq!(resistors, Resistors { resistor1: next, resistor2: first });
    let weak_infrared =
        RawData { ambient: uv(0), led1: uv(800_000), led2: uv(800_000), led3: uv(100) };
    let mut resistors = Resistors { resistor1: first, resistor2: first };
    assert!(!resistors.raise(next, weak_infrared, target));
    assert_eq!(resistors, Resistors { resistor1: first, resistor2: next });
    let strong =
        RawData { ambient: uv(0), led1: uv(800_000), led2: uv(800_000), led3: uv(900_000) };
    assert!(resistors.raise(Resistance { ohms: 50_000 }, strong, target));
    assert_eq!(resistors, Resistors { resistor1: first, resistor2: next });
}

#[test]
fn current_search_ends_within_its_resolution() {
    // The reading is too low below 37 mA.
    let wanted = 37_000_000_000_i64;
    let mut search = CurrentSearch::new(pa(CURRENT_MAX));
    assert_eq!(search.middle, pa(50_000_000_000));
    let mut steps = 0;
    while search.is_open() {
        let tried = search.middle;
        let next = search.step(tried.picoamperes < wanted);
        assert_eq!(next, search.middle);
        steps += 1;
    }
    assert_eq!(steps, 7);
    assert!(search.lower.picoamperes <= wanted && wanted <= search.upper.picoamperes);
    assert!(search.upper.picoamperes - search.lower.picoamperes <= 800_000_000);
    // A search that is over stays where it is.
    let before = search;
    search.step(true);
    assert_eq!(search, before);
}

#[test]
fn correction_is_needed_outside_the_window_only() {
    let calibrator = Calibrator::new(350);
    assert!(!calibrator.needs_correction(uv(200_000)));
    assert!(!calibrator.needs_correction(uv(800_000)));
    assert!(calibrator.needs_correction(uv(199_999)));
    assert!(calibrator.needs_correction(uv(800_001)));
    assert!(calibrator.needs_correction(uv(i32::MIN)));
    assert!(calibrator.needs_correction(uv(i32::MAX)));
}
