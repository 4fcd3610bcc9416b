use pulse_loop::histogram::Histogram;
use pulse_loop::signal_processing::{find_critical_value, CriticalHistory, CriticalValue, Extremum};
use pulse_loop::standard_deviation::{integer_sqrt, MovingStandardDeviation};
use pulse_loop::timer::Timer;

#[test]
fn new_history_is_positive_at_zero() {
    let history = CriticalHistory::new();
    assert!(history.is_positive);
    assert_eq!(history.crossing_threshold, 0);
    assert_eq!(history.max, Extremum { amplitude: 0, timestamp: 0 });
    assert_eq!(history.min, Extremum { amplitude: 0, timestamp: 0 });
}

#[test]
fn crossing_down_reports_the_peak() {
    let mut history = CriticalHistory::new();
    assert_eq!(find_critical_value(3, 10, &mut history), CriticalValue::Neither);
    assert_eq!(find_critical_value(9, 20, &mut history), CriticalValue::Neither);
    assert_eq!(find_critical_value(4, 30, &mut history), CriticalValue::Neither);
    assert_eq!(find_critical_value(-2, 40, &mut history), CriticalValue::Maximum(9, 20));
    assert!(!history.is_positive);
    // The running maximum starts again from the threshold.
    assert_eq!(history.max.amplitude, 0);
}

#[test]
fn crossing_up_reports_the_trough() {
    let mut history = CriticalHistory::new();
    find_critical_value(5, 10, &mut history);
    find_critical_value(-2, 20, &mut history);
    assert_eq!(find_critical_value(-8, 30, &mut history), CriticalValue::Neither);
    assert_eq!(find_critical_value(-3, 40, &mut history), CriticalValue::Neither);
    assert_eq!(find_critical_value(1, 50, &mut history), CriticalValue::Minimum(-8, 30));
    assert!(history.is_positive);
    assert_eq!(history.min.amplitude, 0);
}

#[test]
fn threshold_follows_the_pulse() {
    let mut history = CriticalHistory::new();
    history.adapt_threshold(700, -300, 20);
    assert_eq!(history.crossing_threshold, -200);
    history.adapt_threshold(3, -3, 20);
    assert_eq!(history.crossing_threshold, -1);
    history.adapt_threshold(-3, 3, 20);
    assert_eq!(history.crossing_threshold, 1);
    history.adapt_threshold(i64::MAX, i64::MIN, 255);
    assert_eq!(history.crossing_threshold, i64::MIN);
    history.reset_threshold();
    assert_eq!(history.crossing_threshold, 0);
}

#[test]
fn sample_at_the_threshold_counts_as_below() {
    let mut history = CriticalHistory::new();
    assert_eq!(find_critical_value(0, 5, &mut history), CriticalValue::Maximum(0, 0));
    assert!(!history.is_positive);
}

#[test]
fn sinusoid_gives_back_its_period_and_amplitude() {
    // A pulse of 1.25 Hz (period 800 ms) and amplitude 1000, sampled every 20 ms.
    let period = 800.0_f64;
    let step = 20_u64;
    let amplitude = 1_000.0_f64;
    let mut history = CriticalHistory::new();
    let mut peaks: Vec<(i64, u64)> = Vec::new();
    let mut troughs: Vec<(i64, u64)> = Vec::new();
    let mut order: Vec<bool> = Vec::new();
    for k in 1..400_u64 {
        let now = k * step;
        let phase = 2.0 * std::f64::consts::PI * (now as f64) / period;
        let sample = (amplitude * phase.sin()).round() as i64;
        match find_critical_value(sample, now, &mut history) {
            CriticalValue::Maximum(value, time) => {
                peaks.push((value, time));
                order.push(true);
            }
            CriticalValue::Minimum(value, time) => {
                troughs.push((value, time));
                order.push(false);
            }
            CriticalValue::Neither => {}
        }
    }
    assert_eq!(peaks.len(), 10);
    assert_eq!(troughs.len(), 9);
    for pair in order.windows(2) {
        assert_ne!(pair[0], pair[1]);
    }
    for pair in peaks.windows(2) {
        let interval = pair[1].1 - pair[0].1;
        assert!(interval >= 780 && interval <= 820);
    }
    for pair in troughs.windows(2) {
        let interval = pair[1].1 - pair[0].1;
        assert!(interval >= 780 && interval <= 820);
    }
    for (value, time) in &peaks {
        assert_eq!(*value, 1_000);
        assert_eq!(time % 800, 200);
    }
    for (value, time) in &troughs {
        assert_eq!(*value, -1_000);
        assert_eq!(time % 800, 600);
    }
}

#[test]
fn new_histogram_is_empty() {
    let histogram = Histogram::new(11, 0, 100);
    assert_eq!(histogram.count(), 0);
    assert_eq!(histogram.percentile(50), 0);
    assert_eq!(histogram.percentile(100), 0);
}

#[test]
fn increment_then_decrement_restores_the_count() {
    let mut histogram = Histogram::new(11, 0, 100);
    histogram.increment(35);
    histogram.increment(70);
    assert_eq!(histogram.count(), 2);
    let median = histogram.percentile(50);
    histogram.increment(99);
    assert_eq!(histogram.count(), 3);
    histogram.decrement(99);
    assert_eq!(histogram.count(), 2);
    assert_eq!(histogram.percentile(50), median);
}

#[test]
fn percentile_is_the_edge_above_its_rank() {
    let mut histogram = Histogram::new(11, 0, 100);
    for value in [5, 15, 25, 35] {
        histogram.increment(value);
    }
    assert_eq!(histogram.percentile(0), 0);
    assert_eq!(histogram.percentile(25), 10);
    assert_eq!(histogram.percentile(50), 20);
    assert_eq!(histogram.percentile(75), 30);
    assert_eq!(histogram.percentile(100), 40);
    assert_eq!(histogram.percentile(99), 30);
}

#[test]
fn percentile_fine_moves_back_into_the_bin() {
    let mut histogram = Histogram::new(11, 0, 100);
    for value in [5, 6, 7, 8, 15, 16] {
        histogram.increment(value);
    }
    // Rank 3 of 6 falls into the first bin, which holds four elements, one of
    // them above the rank: the edge 10 moves back by 1 x 10 / 4.
    assert_eq!(histogram.percentile(50), 10);
    assert_eq!(histogram.percentile_fine(50), 8);
    // Rank 5 falls into the second bin, which holds two, one above the rank.
    assert_eq!(histogram.percentile(84), 20);
    assert_eq!(histogram.percentile_fine(84), 15);
    // The last rank is at the upper edge of its bin, whatever follows.
    assert_eq!(histogram.percentile(100), 20);
    assert_eq!(histogram.percentile_fine(100), 20);
    // Rank zero is at the minimum.
    assert_eq!(histogram.percentile_fine(0), 0);
    assert_eq!(histogram.percentile_fine(16), 0);
    assert_eq!(histogram.percentile_fine(17), 3);
}

#[test]
fn percentile_fine_stays_within_one_bin_of_the_percentile() {
    let mut histogram = Histogram::new(21, -100, 100);
    for k in 0..500 {
        histogram.increment((k * 37) % 201 - 100);
    }
    for percentile in 0..=100 {
        let coarse = histogram.percentile(percentile);
        let fine = histogram.percentile_fine(percentile);
        assert!(coarse - 10 <= fine && fine <= coarse);
    }
    assert_eq!(Histogram::new(5, 0, 100).percentile_fine(100), 0);
}

#[test]
fn every_value_of_the_range_is_taken() {
    // Seven bins of width 1 over [0, 11]: what lies past the last bin falls
    // into it.
    let mut histogram = Histogram::new(7, 0, 11);
    for value in 0..=11 {
        histogram.increment(value);
    }
    assert_eq!(histogram.count(), 12);
    assert_eq!(histogram.percentile(50), 6);
    assert_eq!(histogram.percentile(58), 6);
    assert_eq!(histogram.percentile(59), 7);
    assert_eq!(histogram.percentile(100), 7);
    for value in 0..=11 {
        histogram.decrement(value);
    }
    assert_eq!(histogram.count(), 0);
    let mut single = Histogram::new(7, 0, 11);
    single.increment(11);
    assert_eq!(single.count(), 1);
    assert_eq!(single.percentile(100), 7);
    assert_eq!(single.percentile_fine(100), 7);
}

#[test]
fn range_without_width_keeps_everything_in_the_first_bin() {
    let mut histogram = Histogram::new(5, 3, 3);
    histogram.increment(3);
    histogram.increment(3);
    assert_eq!(histogram.count(), 2);
    assert_eq!(histogram.percentile(100), 3);
    assert_eq!(histogram.percentile_fine(50), 3);
    histogram.decrement(3);
    assert_eq!(histogram.count(), 1);
    let mut narrow = Histogram::new(10, 0, 5);
    narrow.increment(5);
    assert_eq!(narrow.count(), 1);
    assert_eq!(narrow.percentile(100), 0);
}

#[test]
fn sliding_window_over_uniform_stream_keeps_count_and_median() {
    let mut histogram = Histogram::new(101, 0, 1_000);
    let value = |k: i32| (k * 37) % 1_000;
    let window = 200;
    for k in 0..window {
        histogram.increment(value(k));
    }
    assert_eq!(histogram.count(), 200);
    for k in window..2_000 {
        histogram.increment(value(k));
        histogram.decrement(value(k - window));
        assert_eq!(histogram.count(), 200);
        let mut held: Vec<i32> = ((k - window + 1)..=k).map(value).collect();
        held.sort();
        let median = held[99];
        let estimate = histogram.percentile(50);
        assert!((estimate - median).abs() <= 10);
    }
}

#[test]
fn top_of_range_is_covered_when_the_width_divides_it() {
    let mut histogram = Histogram::new(11, -50, 50);
    histogram.increment(50);
    histogram.increment(-50);
    assert_eq!(histogram.count(), 2);
    assert_eq!(histogram.percentile(100), 60);
    assert_eq!(histogram.percentile(50), -40);
}

#[test]
fn integer_sqrt_rounds_down() {
    assert_eq!(integer_sqrt(0), 0);
    assert_eq!(integer_sqrt(1), 1);
    assert_eq!(integer_sqrt(3), 1);
    assert_eq!(integer_sqrt(4), 2);
    assert_eq!(integer_sqrt(99), 9);
    assert_eq!(integer_sqrt(100), 10);
    assert_eq!(integer_sqrt(u64::MAX), u32::MAX);
    assert_eq!(integer_sqrt(0x4000_0000_0000_0000), 0x8000_0000);
}

#[test]
fn deviation_of_a_filling_window() {
    let mut deviation = MovingStandardDeviation::new(3);
    assert_eq!(deviation.push(3), 3);
    // (9 + 16) / 2 = 12, root 3.
    assert_eq!(deviation.push(-4), 3);
    // (9 + 16 + 144) / 3 = 56, root 7.
    assert_eq!(deviation.push(12), 7);
}

#[test]
fn deviation_forgets_the_oldest_sample() {
    let mut deviation = MovingStandardDeviation::new(3);
    deviation.push(3);
    deviation.push(-4);
    deviation.push(12);
    // 3 leaves: (16 + 144 + 0) / 3 = 53, root 7.
    assert_eq!(deviation.push(0), 7);
    // -4 leaves: (144 + 0 + 0) / 3 = 48, root 6.
    assert_eq!(deviation.push(0), 6);
    // 12 leaves.
    assert_eq!(deviation.push(0), 0);
    assert_eq!(deviation.push(i32::MIN), 1_239_850_262);
}

#[test]
fn timer_expires_after_its_duration() {
    let mut timer = Timer::new(50, 1_000);
    assert!(!timer.is_expired(1_000));
    assert!(!timer.is_expired(1_049));
    assert!(timer.is_expired(1_050));
    assert!(timer.is_expired(9_000));
    // A clock that reads before the start has not advanced.
    assert!(!timer.is_expired(900));
    timer.reset(1_050);
    assert!(!timer.is_expired(1_099));
    assert!(timer.is_expired(1_100));
    assert!(Timer::new(0, 5).is_expired(5));
}

#[test]
fn signal_seen_later_gives_the_same_extrema_later() {
    let samples = [3, 9, 4, -2, -8, -3, 1, 7, 2, -1, -5, 6];
    let mut early = CriticalHistory::new();
    let mut late = CriticalHistory::new();
    late.max.timestamp = 800;
    late.min.timestamp = 800;
    for (k, sample) in samples.iter().enumerate() {
        let now = 10 * (k as u64 + 1);
        let first = find_critical_value(*sample, now, &mut early);
        let second = find_critical_value(*sample, now + 800, &mut late);
        let expected = match first {
            CriticalValue::Neither => CriticalValue::Neither,
            CriticalValue::Minimum(amplitude, time) => {
                CriticalValue::Minimum(amplitude, time + 800)
            }
            CriticalValue::Maximum(amplitude, time) => {
                CriticalValue::Maximum(amplitude, time + 800)
            }
        };
        assert_eq!(second, expected);
    }
    assert_eq!(late.max.timestamp, early.max.timestamp + 800);
    assert_eq!(late.min.timestamp, early.min.timestamp + 800);
}
