use pulse_loop::bluetooth::{
    Appearance, BluetoothAPI, CalibratedLeds, CalibrationServiceContainer,
};
use pulse_loop::calibration::Parameter;
use pulse_loop::data_reading::{get_readings, request_readings, Delivery, Poll};
use pulse_loop::data_sending::{from_le_bytes, le_bytes, FilteredData, RawData};
use pulse_loop::heart_rate::{accept_interval, heart_rate_from_interval, HeartRateMonitor};
use pulse_loop::oxygen_saturation::{
    index_ratio, narrow, perfusion_index, FilteredSample, OxygenConfiguration, OxygenEstimator,
    RatioAverager, SaturationLine,
};
use pulse_loop::quantity::{Current, Resistance, Voltage};
use pulse_loop::rolling_median::MedianFilter;
use pulse_loop::signal_processing::CriticalValue;
use pulse_loop::vital_signs::{
    refined_current, wrist_present, Channel, Configuration, VitalSigns,
};

fn pa(picoamperes: i64) -> Current {
    Current { picoamperes }
}

fn uv(microvolts: i32) -> Voltage {
    Voltage { microvolts }
}

fn sample(dc: i64, ac: i64) -> FilteredSample {
    FilteredSample { dc, ac }
}

fn configuration(line: SaturationLine) -> Configuration {
    Configuration {
        settle_time: 200,
        filter_settle_time: 4_650,
        threshold_timeout: 2_000,
        threshold_percent: 20,
        oxygen: OxygenConfiguration { batch: 60, red_index_floor: 60, line },
    }
}

fn samples(green: FilteredSample, red: FilteredSample, infrared: FilteredSample) -> FilteredData {
    FilteredData {
        led1: green,
        led2: red,
        led3: infrared,
        led1_threshold: 0,
        led2_threshold: 0,
        led3_threshold: 0,
    }
}

#[test]
fn median_filter_answers_with_the_median() {
    let mut filter = MedianFilter::new(3);
    assert_eq!(filter.consume(10), 10);
    filter.consume(30);
    assert_eq!(filter.consume(20), 20);
    assert_eq!(filter.consume(100), 30);
    assert_eq!(filter.consume(5), 20);
    assert_eq!(filter.consume(7), 7);
}

#[test]
fn implausible_intervals_are_rejected() {
    assert!(!accept_interval(100));
    assert!(!accept_interval(3_000));
    assert!(!accept_interval(250));
    assert!(!accept_interval(2_000));
    assert!(accept_interval(251));
    assert!(accept_interval(800));
    assert!(accept_interval(1_999));
}

#[test]
fn heart_rate_is_beats_per_minute() {
    assert_eq!(heart_rate_from_interval(800), 75_000);
    assert_eq!(heart_rate_from_interval(1_000), 60_000);
    assert_eq!(heart_rate_from_interval(251), 239_043);
    assert_eq!(heart_rate_from_interval(1_999), 30_015);
}

#[test]
fn monitor_publishes_accepted_intervals_only() {
    let mut monitor = HeartRateMonitor::new();
    // The first peak has no peak before it.
    assert_eq!(monitor.maximum(1_000, 10_000), None);
    // 100 ms later: 600 beats per minute.
    assert_eq!(monitor.maximum(1_000, 10_100), None);
    // 3000 ms later: 20 beats per minute.
    assert_eq!(monitor.maximum(1_000, 13_100), None);
    // 800 ms later: 75 beats per minute.
    assert_eq!(monitor.maximum(1_000, 13_900), Some(75_000));
    // A clock that went back gives no interval.
    assert_eq!(monitor.maximum(1_000, 13_000), None);
}

#[test]
fn monitor_filters_out_a_stray_interval() {
    let mut monitor = HeartRateMonitor::new();
    let mut now = 0;
    monitor.maximum(0, now);
    for _ in 0..30 {
        now += 800;
        assert_eq!(monitor.maximum(0, now), Some(75_000));
    }
    // One interval of 400 ms among 800 ms ones leaves the median where it was.
    now += 400;
    assert_eq!(monitor.maximum(0, now), Some(75_000));
    // Rejected intervals did not reach the filter: after a gap the rate is
    // still that of the accepted ones.
    now += 5_000;
    assert_eq!(monitor.maximum(0, now), None);
    now += 800;
    assert_eq!(monitor.maximum(0, now), Some(75_000));
    monitor.forget_peak();
    now += 800;
    assert_eq!(monitor.maximum(0, now), None);
}

#[test]
fn perfusion_index_is_pulse_over_baseline() {
    assert_eq!(perfusion_index(2, 10_000), Some(200));
    assert_eq!(perfusion_index(1, 10_000), Some(100));
    assert_eq!(perfusion_index(1, 3), Some(333_333));
    assert_eq!(perfusion_index(-1, 3), Some(-333_333));
    assert_eq!(perfusion_index(i64::MAX, 1), Some(i64::MAX));
}

#[test]
fn perfusion_index_needs_a_positive_baseline() {
    assert_eq!(perfusion_index(5, 0), None);
    assert_eq!(perfusion_index(5, -10), None);
}

#[test]
fn ratio_counts_above_the_floor_only() {
    assert_eq!(index_ratio(Some(200), Some(100), 60), Some(20_000));
    assert_eq!(index_ratio(Some(61), Some(100), 60), Some(6_100));
    assert_eq!(index_ratio(Some(60), Some(100), 60), None);
    assert_eq!(index_ratio(Some(200), Some(0), 60), None);
    assert_eq!(index_ratio(Some(200), Some(-5), 60), None);
    assert_eq!(index_ratio(None, Some(100), 60), None);
    assert_eq!(index_ratio(Some(200), None, 60), None);
    assert_eq!(index_ratio(Some(1), Some(3), 0), Some(3_333));
    assert_eq!(index_ratio(Some(5), Some(3), -10), Some(16_666));
    assert_eq!(index_ratio(Some(-5), Some(3), -10), None);
}

#[test]
fn saturation_follows_the_line() {
    let line = SaturationLine { slope: -50_000, intercept: 1_050_000 };
    assert_eq!(line.saturation(20_000), Some(950_000));
    assert_eq!(line.saturation(10_000), Some(1_000_000));
    assert_eq!(line.saturation(50_000), Some(800_000));
    assert_eq!(line.saturation(15_001), Some(974_995));
}

#[test]
fn saturation_outside_its_range_is_withheld() {
    let line = SaturationLine { slope: -50_000, intercept: 1_050_000 };
    assert_eq!(line.saturation(9_999), None);
    assert_eq!(line.saturation(50_001), None);
    assert_eq!(line.saturation(u64::MAX), None);
    // At the wrist a ratio of 2.0 maps to about 10 %: no valid saturation.
    let wrist = SaturationLine::wrist();
    assert_eq!(wrist.saturation(20_000), None);
    // A ratio of 1.0 maps to 85.6648 %.
    assert_eq!(wrist.saturation(10_000), Some(856_648));
}

#[test]
fn sixty_ratios_of_two_give_one_saturation() {
    let line = SaturationLine { slope: -50_000, intercept: 1_050_000 };
    let mut averager = RatioAverager::new(60);
    for _ in 0..59 {
        let ratio = index_ratio(Some(200), Some(100), 60).unwrap();
        assert_eq!(averager.feed(ratio), None);
    }
    let ratio = index_ratio(Some(200), Some(100), 60).unwrap();
    let average = averager.feed(ratio);
    assert_eq!(average, Some(20_000));
    assert_eq!(line.saturation(average.unwrap()), Some(950_000));
    assert_eq!(SaturationLine::wrist().saturation(average.unwrap()), None);
    // The next batch starts afresh.
    assert_eq!(averager.feed(30_000), None);
}

#[test]
fn averager_averages_each_batch() {
    let mut averager = RatioAverager::new(3);
    assert_eq!(averager.accumulate(10), None);
    assert_eq!(averager.accumulate(20), None);
    assert_eq!(averager.accumulate(31), Some(20));
    assert_eq!(averager.accumulate(u64::MAX), None);
    assert_eq!(averager.accumulate(u64::MAX), None);
    assert_eq!(averager.accumulate(u64::MAX), Some(u64::MAX));
    let mut single = RatioAverager::new(1);
    assert_eq!(single.accumulate(7), Some(7));
    assert_eq!(single.accumulate(9), Some(9));
}

#[test]
fn averager_feeds_through_the_median_filter() {
    let mut averager = RatioAverager::new(2);
    assert_eq!(averager.feed(10_000), None);
    // A spike is not what the filter answers with.
    assert_eq!(averager.feed(10_000), Some(10_000));
    assert_eq!(averager.feed(10_000), None);
    assert_eq!(averager.feed(900_000), Some(10_000));
}

#[test]
fn samples_are_narrowed_for_the_deviation() {
    assert_eq!(narrow(5), 5);
    assert_eq!(narrow(-5), -5);
    assert_eq!(narrow(i64::MAX), i32::MAX);
    assert_eq!(narrow(i64::MIN), i32::MIN);
}

#[test]
fn estimator_publishes_after_a_batch() {
    let line = SaturationLine { slope: -50_000, intercept: 1_050_000 };
    let mut estimator =
        OxygenEstimator::new(OxygenConfiguration { batch: 60, red_index_floor: 60, line });
    // Red pulses by 200 on a baseline of 1 000 000 (0.02 %), infrared by 100
    // (0.01 %): a ratio of 2.0.
    for k in 0..59 {
        let sign = if k % 2 == 0 { 1 } else { -1 };
        let reading = estimator.push(sample(1_000_000, 200 * sign), sample(1_000_000, 100 * sign));
        assert_eq!(reading.red_index, Some(200));
        assert_eq!(reading.infrared_index, Some(100));
        assert_eq!(reading.ratio, None);
        assert_eq!(reading.saturation, None);
    }
    let reading = estimator.push(sample(1_000_000, -200), sample(1_000_000, -100));
    assert_eq!(reading.ratio, Some(20_000));
    assert_eq!(reading.saturation, Some(950_000));
}

#[test]
fn estimator_skips_weak_red_pulses() {
    let line = SaturationLine { slope: -50_000, intercept: 1_050_000 };
    let mut estimator =
        OxygenEstimator::new(OxygenConfiguration { batch: 1, red_index_floor: 60, line });
    // A red index of 0.006 % is not above the floor.
    let weak = estimator.push(sample(1_000_000, 60), sample(1_000_000, 100));
    assert_eq!(weak.red_index, Some(60));
    assert_eq!(weak.ratio, None);
    // A baseline of zero gives no index at all.
    let dark = estimator.push(sample(0, 60), sample(1_000_000, 100));
    assert_eq!(dark.red_index, None);
    assert_eq!(dark.infrared_index, Some(100));
    assert_eq!(dark.ratio, None);
    assert_eq!(dark.saturation, None);
}

#[test]
fn wrist_is_present_within_both_limits() {
    assert!(wrist_present(pa(999_999), pa(10_000_001)));
    assert!(!wrist_present(pa(1_000_000), pa(10_000_001)));
    assert!(!wrist_present(pa(999_999), pa(10_000_000)));
    assert!(!wrist_present(pa(2_000_000), pa(5_000_000)));
}

#[test]
fn refined_current_removes_ambient_and_offset() {
    let resistor = Resistance { ohms: 10_000 };
    // 400 mV over 2 x 10 kOhm are 20 uA.
    assert_eq!(
        refined_current(uv(400_000), resistor, pa(-6_500_000), pa(500_000)),
        pa(26_000_000)
    );
    assert_eq!(refined_current(uv(0), resistor, pa(i64::MAX), pa(i64::MAX)), pa(i64::MIN));
    assert_eq!(refined_current(uv(0), resistor, pa(i64::MIN), pa(i64::MIN)), pa(i64::MAX));
}

#[test]
fn wrist_removal_resets_thresholds_and_turns_leds_off() {
    let mut vitals = VitalSigns::new(configuration(SaturationLine::wrist()), 0);
    let decision = vitals.observe_wrist(pa(500_000), pa(20_000_000), 100);
    assert!(decision.present);
    assert!(decision.appeared);
    assert_eq!(decision.led_command, None);
    assert!(vitals.results.wrist_presence);
    vitals.green.history.crossing_threshold = -200;
    vitals.red.history.crossing_threshold = -300;
    vitals.infrared.history.crossing_threshold = -400;
    let decision = vitals.observe_wrist(pa(2_000_000), pa(5_000_000), 200);
    assert!(!decision.present);
    assert!(!decision.appeared);
    assert_eq!(decision.led_command, Some(pa(0)));
    assert!(!vitals.results.wrist_presence);
    assert_eq!(vitals.green.history.crossing_threshold, 0);
    assert_eq!(vitals.red.history.crossing_threshold, 0);
    assert_eq!(vitals.infrared.history.crossing_threshold, 0);
}

#[test]
fn appearing_wrist_restarts_the_settle_timers() {
    let mut vitals = VitalSigns::new(configuration(SaturationLine::wrist()), 0);
    assert!(vitals.settled(200));
    let first = vitals.observe_wrist(pa(0), pa(20_000_000), 1_000);
    assert!(first.appeared);
    assert!(!vitals.settled(1_199));
    assert!(vitals.settled(1_200));
    let second = vitals.observe_wrist(pa(0), pa(20_000_000), 1_100);
    assert!(second.present);
    assert!(!second.appeared);
    assert!(vitals.settled(1_200));
    vitals.calibrated(1_150);
    assert!(!vitals.settled(1_349));
    assert!(vitals.settled(1_350));
}

#[test]
fn channel_reports_index_at_a_trough() {
    let mut channel = Channel::new(2_000, 0);
    assert_eq!(channel.feed(sample(1_000_000, 300), 10, 20).critical, CriticalValue::Neither);
    let peak = channel.feed(sample(1_000_000, -100), 20, 20);
    assert_eq!(peak.critical, CriticalValue::Maximum(300, 10));
    assert_eq!(peak.perfusion_index, None);
    channel.feed(sample(1_000_000, -200), 30, 20);
    let trough = channel.feed(sample(1_000_000, 50), 40, 20);
    assert_eq!(trough.critical, CriticalValue::Minimum(-200, 30));
    // A pulse of 500 on a baseline of 1 000 000: 0.05 %.
    assert_eq!(trough.perfusion_index, Some(500));
    // A fifth of the pulse, below zero.
    assert_eq!(channel.history.crossing_threshold, -100);
    assert_eq!(channel.threshold_timer.instant, 40);
}

#[test]
fn stale_threshold_goes_back_to_zero() {
    let mut channel = Channel::new(2_000, 0);
    channel.feed(sample(1_000_000, 300), 10, 20);
    channel.feed(sample(1_000_000, -200), 20, 20);
    channel.feed(sample(1_000_000, 50), 30, 20);
    assert_eq!(channel.history.crossing_threshold, -100);
    // Within the timeout a sample between threshold and zero stays positive.
    assert_eq!(channel.feed(sample(1_000_000, -50), 2_029, 20).critical, CriticalValue::Neither);
    // After the timeout the threshold is zero again, and the sample is below.
    let report = channel.feed(sample(1_000_000, -50), 2_030, 20);
    assert_eq!(report.critical, CriticalValue::Maximum(50, 30));
    assert_eq!(channel.history.crossing_threshold, 0);
}

#[test]
fn pipeline_waits_for_the_filters() {
    let mut vitals = VitalSigns::new(configuration(SaturationLine::wrist()), 0);
    vitals.observe_wrist(pa(0), pa(20_000_000), 0);
    let pulse = samples(sample(1_000_000, 500), sample(1_000_000, 0), sample(1_000_000, 0));
    vitals.process(pulse, 4_649);
    assert_eq!(vitals.green.history.max.amplitude, 0);
    assert_eq!(vitals.filtered.led1, sample(1_000_000, 500));
    vitals.process(pulse, 4_650);
    assert_eq!(vitals.green.history.max.amplitude, 500);
    assert_eq!(vitals.green.history.max.timestamp, 4_650);
}

#[test]
fn pipeline_publishes_heart_rate_and_indices() {
    let mut vitals = VitalSigns::new(configuration(SaturationLine::wrist()), 0);
    vitals.observe_wrist(pa(0), pa(20_000_000), 0);
    let high = samples(sample(1_000_000, 400), sample(2_000_000, 400), sample(4_000_000, 400));
    let low = samples(sample(1_000_000, -600), sample(2_000_000, -600), sample(4_000_000, -600));
    let mut now = 10_000;
    for _ in 0..3 {
        vitals.process(high, now);
        vitals.process(low, now + 400);
        now += 800;
    }
    assert_eq!(vitals.results.heart_rate, 75_000);
    // Pulses of 1000 on baselines of 1, 2 and 4 millions.
    assert_eq!(vitals.results.led1_pi, 1_000);
    assert_eq!(vitals.results.led2_pi, 500);
    assert_eq!(vitals.results.led3_pi, 250);
    assert_eq!(vitals.filtered.led1_threshold, -200);
    assert_eq!(vitals.filtered.led2_threshold, -200);
    assert_eq!(vitals.filtered.led3_threshold, -200);
    assert!(vitals.results.wrist_presence);
}

#[test]
fn raw_data_round_trips_through_its_wire_format() {
    let data = RawData {
        ambient: uv(-1),
        led1: uv(1_200_000),
        led2: uv(i32::MIN),
        led3: uv(i32::MAX),
    };
    let bytes = data.serialise();
    assert_eq!(bytes.len(), 16);
    assert_eq!(RawData::deserialise(&bytes), data);
    assert_eq!(i32::from_le_bytes([bytes[0], bytes[1], bytes[2], bytes[3]]), -1);
    assert_eq!(i32::from_le_bytes([bytes[4], bytes[5], bytes[6], bytes[7]]), 1_200_000);
    assert_eq!(i32::from_le_bytes([bytes[8], bytes[9], bytes[10], bytes[11]]), i32::MIN);
    assert_eq!(i32::from_le_bytes([bytes[12], bytes[13], bytes[14], bytes[15]]), i32::MAX);
}

#[test]
fn bytes_are_little_endian() {
    assert_eq!(le_bytes(0x0102_0304), [4, 3, 2, 1]);
    assert_eq!(le_bytes(-2), [0xfe, 0xff, 0xff, 0xff]);
    assert_eq!(le_bytes(0), [0, 0, 0, 0]);
    assert_eq!(from_le_bytes(4, 3, 2, 1), 0x0102_0304);
    assert_eq!(from_le_bytes(0xfe, 0xff, 0xff, 0xff), -2);
    assert_eq!(from_le_bytes(0, 0, 0, 0x80), i32::MIN);
    for value in [0, 1, -1, 255, 256, -256, 65_536, i32::MAX, i32::MIN, 123_456_789] {
        assert_eq!(le_bytes(value), value.to_le_bytes());
    }
}

#[test]
fn raw_data_channels_come_in_wire_order() {
    let data = RawData { ambient: uv(1), led1: uv(2), led2: uv(3), led3: uv(4) };
    assert_eq!(data.channel(0), Some(uv(1)));
    assert_eq!(data.channel(1), Some(uv(2)));
    assert_eq!(data.channel(2), Some(uv(3)));
    assert_eq!(data.channel(3), Some(uv(4)));
    assert_eq!(data.channel(4), None);
}

#[test]
fn raw_data_is_averaged() {
    let mut total = RawData::new();
    total.add_assign(RawData { ambient: uv(10), led1: uv(-20), led2: uv(30), led3: uv(i32::MAX) });
    total.add_assign(RawData { ambient: uv(5), led1: uv(-5), led2: uv(31), led3: uv(1) });
    assert_eq!(total, RawData { ambient: uv(15), led1: uv(-25), led2: uv(61), led3: uv(i32::MAX) });
    total.div_assign(2);
    assert_eq!(
        total,
        RawData { ambient: uv(7), led1: uv(-12), led2: uv(30), led3: uv(1_073_741_823) }
    );
}

#[test]
fn filtered_data_is_indexed_by_led() {
    let mut data = FilteredData::new();
    data.index_mut(0, sample(1, 2));
    data.index_mut(1, sample(3, 4));
    data.index_mut(2, sample(5, 6));
    assert_eq!(data.index(0), sample(1, 2));
    assert_eq!(data.index(1), sample(3, 4));
    assert_eq!(data.index(2), sample(5, 6));
    assert_eq!(data.led2, sample(3, 4));
}

#[test]
fn readings_are_read_only_when_ready() {
    assert_eq!(get_readings(false), Poll::Idle);
    assert_eq!(get_readings(true), Poll::ClearAndRead);
}

#[test]
fn overlapped_readings_are_dropped() {
    let data = RawData { ambient: uv(1), led1: uv(2), led2: uv(3), led3: uv(4) };
    assert_eq!(request_readings(false, Some(data)), Delivery::Deliver(data));
    assert_eq!(request_readings(true, Some(data)), Delivery::Overlapped);
    assert_eq!(request_readings(true, None), Delivery::Overlapped);
    assert_eq!(request_readings(false, None), Delivery::Failed);
}

#[test]
fn attribute_table_matches_the_wire_formats() {
    let api = BluetoothAPI::initialise();
    let raw = RawData::new().serialise();
    let raw_characteristic = api.sensor_data.raw_optical_data_characteristic;
    assert_eq!(raw_characteristic.max_value_length as usize, raw.len());
    assert_eq!(api.sensor_data.filtered_optical_data_characteristic.max_value_length, 36);
    assert_eq!(api.results.wrist_presence_characteristic.max_value_length, 1);
    assert_eq!(api.results.heart_rate_characteristic.max_value_length, 4);
    assert_eq!(api.calibration.characteristics.len(), 16);
    assert_eq!(api.calibration.characteristics[7].name, "LED1 alpha");
    assert_eq!(api.calibration.characteristics[15].name, "LED2 LED3 alpha");
    assert!(api.calibration.characteristics.iter().all(|c| c.readable && c.writable));
    assert_eq!(api.optical_frontend_configuration.characteristics.len(), 40);
    assert_eq!(
        api.optical_frontend_configuration.characteristics[39].name,
        "Total window length"
    );
    let advertisement = api.start();
    assert_eq!(advertisement.device_name, "pulse.loop");
    assert_eq!(advertisement.profile_identifier, 1);
    assert_eq!(advertisement.appearance, Appearance::WristWornPulseOximeter);
    assert_eq!(advertisement.profile_name, "Main profile");
    let names: Vec<&str> = advertisement.services.iter().map(|service| service.name).collect();
    assert_eq!(names, vec!["pulse.loop", "Sensor data", "Optical frontend configuration"]);
    assert_eq!(advertisement.advertised.uuid, api.pulse_loop.service.uuid);
    assert_eq!(advertisement.services[1].name, "Sensor data");
}

#[test]
fn median_filter_answers_with_the_lower_median_of_its_window() {
    let mut state: u64 = 0x2545_f491_4f6c_dd1d;
    for size in [1_usize, 2, 3, 4, 5, 6, 7, 8, 9, 21, 51] {
        for spread in [3_u64, 10, 1_000_000] {
            let mut filter = MedianFilter::new(size);
            let mut samples: Vec<u64> = Vec::new();
            for _ in 0..200 {
                state = state
                    .wrapping_mul(6_364_136_223_846_793_005)
                    .wrapping_add(1_442_695_040_888_963_407);
                let value = (state >> 33) % spread;
                samples.push(value);
                let answer = filter.consume(value);
                let start = samples.len().saturating_sub(size);
                let mut window: Vec<u64> = samples[start..].to_vec();
                window.sort();
                assert_eq!(answer, window[(window.len() - 1) / 2]);
            }
        }
    }
}

#[test]
fn calibration_characteristics_name_their_parameters() {
    let service = CalibrationServiceContainer::initialise();
    assert_eq!(
        CalibrationServiceContainer::target(0),
        Some((CalibratedLeds::Led1, Parameter::LedCurrentMin))
    );
    assert_eq!(
        CalibrationServiceContainer::target(7),
        Some((CalibratedLeds::Led1, Parameter::Alpha))
    );
    assert_eq!(
        CalibrationServiceContainer::target(8),
        Some((CalibratedLeds::Led2Led3, Parameter::LedCurrentMin))
    );
    assert_eq!(
        CalibrationServiceContainer::target(13),
        Some((CalibratedLeds::Led2Led3, Parameter::AdcSetPoint))
    );
    assert_eq!(CalibrationServiceContainer::target(16), None);
    assert_eq!(service.characteristics[13].name, "LED2 LED3 adc set point");
    assert_eq!(service.characteristics[4].name, "LED1 offset current set point");
    assert_eq!(
        CalibrationServiceContainer::target(4),
        Some((CalibratedLeds::Led1, Parameter::OffsetCurrentSetPoint))
    );
}

#[test]
fn default_configuration_holds_the_usual_values() {
    let configuration = Configuration::default();
    assert_eq!(configuration.settle_time, 200);
    assert_eq!(configuration.filter_settle_time, 4_650);
    assert_eq!(configuration.threshold_timeout, 2_000);
    assert_eq!(configuration.threshold_percent, 20);
    assert_eq!(configuration.oxygen, OxygenConfiguration::default());
    assert_eq!(configuration.oxygen.batch, 60);
    assert_eq!(configuration.oxygen.red_index_floor, 60);
    assert_eq!(configuration.oxygen.line, SaturationLine::wrist());
}
