use pulse_loop::filters::{ChannelFilter, FirFilter};
use pulse_loop::oxygen_saturation::FilteredSample;
use pulse_loop::quantity::Current;

#[test]
fn filter_weights_the_oldest_sample_first() {
    let mut filter = FirFilter::new(vec![1, 0, 2, 0], 1);
    assert_eq!(filter.feed(1), 0);
    assert_eq!(filter.feed(2), 2);
    assert_eq!(filter.feed(3), 4);
    assert_eq!(filter.feed(4), 7);
    assert_eq!(filter.feed(5), 10);
}

#[test]
fn filter_divides_by_its_scale_towards_zero() {
    let mut average = FirFilter::new(vec![500_000, 500_000], 1_000_000);
    assert_eq!(average.feed(10), 5);
    assert_eq!(average.feed(20), 15);
    assert_eq!(average.feed(-23), -1);
    assert_eq!(average.feed(-2), -12);
    assert_eq!(average.feed(1), 0);
}

#[test]
fn filter_answer_is_limited_to_its_range() {
    let mut filter = FirFilter::new(vec![i32::MAX, i32::MAX], 1);
    assert_eq!(filter.feed(i64::MAX), i64::MAX);
    assert_eq!(filter.feed(i64::MIN), -2_147_483_647);
    assert_eq!(filter.feed(i64::MIN), i64::MIN);
}

#[test]
fn single_coefficient_scales_the_sample() {
    let mut filter = FirFilter::new(vec![3], 2);
    assert_eq!(filter.feed(5), 7);
    assert_eq!(filter.feed(-5), -7);
    assert_eq!(filter.feed(0), 0);
}

#[test]
fn channel_is_split_into_baseline_and_pulse() {
    // A lowpass that averages four samples, a bandpass that takes the
    // difference of the newest sample from the one before it.
    let mut channel = ChannelFilter::new(vec![25, 25, 25, 25], vec![0, 0, -100, 100], 100);
    let mut last = FilteredSample { dc: 0, ac: 0 };
    for value in [1_000, 1_100, 1_000, 900] {
        last = channel.feed(Current { picoamperes: value });
    }
    assert_eq!(last, FilteredSample { dc: 1_000, ac: -100 });
    last = channel.feed(Current { picoamperes: 1_000 });
    assert_eq!(last, FilteredSample { dc: 1_000, ac: 100 });
}

#[test]
fn steady_signal_passes_the_lowpass_and_not_the_bandpass() {
    let mut channel =
        ChannelFilter::new(vec![10, 20, 40, 20, 10], vec![-25, -25, 100, -25, -25], 100);
    let mut last = FilteredSample { dc: 0, ac: 0 };
    for _ in 0..5 {
        last = channel.feed(Current { picoamperes: 123_456 });
    }
    assert_eq!(last, FilteredSample { dc: 123_456, ac: 0 });
}
