//! Detection of the peaks and troughs of a pulsatile signal.
//!
//! The detector follows the signal across a crossing threshold. While the
//! signal is above the threshold it tracks the running maximum, and reports it
//! when the signal falls below; while the signal is below it tracks the running
//! minimum, and reports it when the signal rises above.

use vstd::prelude::*;
use crate::quantity::{clamp, trunc_div};

verus! {

/// A peak or a trough: its amplitude and the time, in milliseconds, at which
/// it was seen.
#[derive(Clone, Copy, Debug, PartialEq, Eq, Structural)]
pub struct Extremum {
    pub amplitude: i64,
    pub timestamp: u64,
}

/// What one sample revealed.
#[derive(Clone, Copy, Debug, PartialEq, Eq, Structural)]
pub enum CriticalValue {
    /// The signal stayed on its side of the threshold.
    Neither,
    /// The signal rose above the threshold: the trough it leaves behind.
    Minimum(i64, u64),
    /// The signal fell below the threshold: the peak it leaves behind.
    Maximum(i64, u64),
}

/// The state of the detector of one channel.
#[derive(Clone, Copy, Debug, PartialEq, Eq, Structural)]
pub struct CriticalHistory {
    pub max: Extremum,
    pub min: Extremum,
    /// Whether the last sample was above the threshold.
    pub is_positive: bool,
    pub crossing_threshold: i64,
}

impl CriticalHistory {
    /// The history with `element`, seen at `now`, taken into its running
    /// maximum or, failing that, into its running minimum.
    pub open spec fn followed(self, element: i64, now: u64) -> CriticalHistory {
        if element > self.max.amplitude {
            CriticalHistory { max: Extremum { amplitude: element, timestamp: now }, ..self }
        } else if element < self.min.amplitude {
            CriticalHistory { min: Extremum { amplitude: element, timestamp: now }, ..self }
        } else {
            self
        }
    }

    /// Whether `element` lies on the other side of the threshold than the
    /// sample before it.
    pub open spec fn crosses(self, element: i64) -> bool {
        self.is_positive != (element > self.crossing_threshold)
    }

    /// What `element`, seen at `now`, reveals.
    pub open spec fn critical(self, element: i64, now: u64) -> CriticalValue {
        let followed = self.followed(element, now);
        if !self.crosses(element) {
            CriticalValue::Neither
        } else if self.is_positive {
            CriticalValue::Maximum(followed.max.amplitude, followed.max.timestamp)
        } else {
            CriticalValue::Minimum(followed.min.amplitude, followed.min.timestamp)
        }
    }

    /// The history after `element`, seen at `now`. On a crossing the extremum
    /// that was reported starts again from the threshold.
    pub open spec fn advanced(self, element: i64, now: u64) -> CriticalHistory {
        let followed = self.followed(element, now);
        if !self.crosses(element) {
            followed
        } else if self.is_positive {
            CriticalHistory {
                max: Extremum { amplitude: self.crossing_threshold, ..followed.max },
                is_positive: false,
                ..followed
            }
        } else {
            CriticalHistory {
                min: Extremum { amplitude: self.crossing_threshold, ..followed.min },
                is_positive: true,
                ..followed
            }
        }
    }

    /// The threshold that follows a pulse of `ac_amplitude`: the given
    /// percentage of the amplitude, below zero.
    pub open spec fn threshold_for(ac_amplitude: int, percent: int) -> int {
        clamp(-trunc_div(ac_amplitude * percent, 100), i64::MIN as int, i64::MAX as int)
    }

    /// Creates the history of a signal that has not been seen yet: it counts
    /// as positive, with both extrema and the threshold at zero.
    pub fn new() -> (r: CriticalHistory)
        ensures
            r == (CriticalHistory {
                max: Extremum { amplitude: 0, timestamp: 0 },
                min: Extremum { amplitude: 0, timestamp: 0 },
                is_positive: true,
                crossing_threshold: 0,
            }),
    {
        CriticalHistory {
            max: Extremum { amplitude: 0, timestamp: 0 },
            min: Extremum { amplitude: 0, timestamp: 0 },
            is_positive: true,
            crossing_threshold: 0,
        }
    }

    /// Puts the threshold back to zero, as after a long time without a
    /// crossing or when the wrist is gone.
    pub fn reset_threshold(&mut self)
        ensures
            *final(self) == (CriticalHistory { crossing_threshold: 0, ..*old(self) }),
    {
        self.crossing_threshold = 0;
    }

    /// Moves the threshold to follow the strength of the pulse: `percent`
    /// hundredths of the distance from `peak` down to `trough`, below zero.
    pub fn adapt_threshold(&mut self, peak: i64, trough: i64, percent: u8)
        ensures
            *final(self) == (CriticalHistory {
                crossing_threshold: Self::threshold_for(peak - trough, percent as int) as i64,
                ..*old(self)
            }),
            final(self).crossing_threshold == Self::threshold_for(peak - trough, percent as int),
    {
        let ac: i128 = peak as i128 - trough as i128;
        let factor: i128 = percent as i128;
        assert(-0x1_0000_0000_0000_0000_0000 <= ac * factor <= 0x1_0000_0000_0000_0000_0000)
            by (nonlinear_arith)
            requires
                -0x1_0000_0000_0000_0000 <= ac <= 0x1_0000_0000_0000_0000,
                0 <= factor <= 0xff,
        ;
        let scaled: i128 = ac * factor;
        let share: i128 = scaled / 100;
        proof {
            crate::quantity::lemma_trunc_div_bounds(scaled as int, 100);
        }
        let threshold: i64 = crate::quantity::limit(-share);
        self.crossing_threshold = threshold;
    }
}

/// Feeds one sample of the pulsatile signal, seen at `now`, to the detector.
///
/// Returns the peak when the signal falls through the threshold, the trough
/// when it rises through it, and nothing otherwise.
pub fn find_critical_value(element: i64, now: u64, history: &mut CriticalHistory) -> (critical:
    CriticalValue)
    ensures
        critical == old(history).critical(element, now),
        *final(history) == old(history).advanced(element, now),
{
    if element > history.max.amplitude {
        history.max = Extremum { amplitude: element, timestamp: now };
    } else if element < history.min.amplitude {
        history.min = Extremum { amplitude: element, timestamp: now };
    }
    let is_positive = element > history.crossing_threshold;
    if history.is_positive != is_positive {
        let critical = if history.is_positive {
            let peak = CriticalValue::Maximum(history.max.amplitude, history.max.timestamp);
            history.max.amplitude = history.crossing_threshold;
            peak
        } else {
            let trough = CriticalValue::Minimum(history.min.amplitude, history.min.timestamp);
            history.min.amplitude = history.crossing_threshold;
            trough
        };
        history.is_positive = is_positive;
        critical
    } else {
        CriticalValue::Neither
    }
}

/// A sample reveals an extremum exactly when it crosses the threshold, and the
/// history then remembers on which side the sample lay.
pub proof fn lemma_reports_on_crossing(history: CriticalHistory, element: i64, now: u64)
    ensures
        history.critical(element, now) != CriticalValue::Neither <==> history.crosses(element),
        history.advanced(element, now).is_positive == (element > history.crossing_threshold),
        history.advanced(element, now).crossing_threshold == history.crossing_threshold,
{
}

/// Peaks and troughs take turns: after a peak the next extremum reported is a
/// trough, and after a trough it is a peak.
pub proof fn lemma_extrema_alternate(
    history: CriticalHistory,
    element: i64,
    now: u64,
    next_element: i64,
    next_now: u64,
)
    ensures
        history.critical(element, now) is Maximum ==> !(history.advanced(element, now).critical(
            next_element,
            next_now,
        ) is Maximum),
        history.critical(element, now) is Minimum ==> !(history.advanced(element, now).critical(
            next_element,
            next_now,
        ) is Minimum),
{
}

/// The running maximum is never below the sample just seen, and the running
/// minimum never above it. Between two crossings the maximum only rises and
/// the minimum only falls, so that the peak reported at a crossing is at least
/// every sample seen since the crossing before it.
pub proof fn lemma_running_extrema(history: CriticalHistory, element: i64, now: u64)
    requires
        history.min.amplitude <= history.crossing_threshold <= history.max.amplitude,
    ensures
        history.advanced(element, now).max.amplitude >= element,
        history.advanced(element, now).min.amplitude <= element,
        history.advanced(element, now).min.amplitude <= history.crossing_threshold
            <= history.advanced(element, now).max.amplitude,
        !history.crosses(element) ==> {
            &&& history.advanced(element, now).max.amplitude >= history.max.amplitude
            &&& history.advanced(element, now).min.amplitude <= history.min.amplitude
        },
{
}

/// The history after a run of samples, each with the time at which it was
/// seen.
pub open spec fn after_run(history: CriticalHistory, run: Seq<(i64, u64)>) -> CriticalHistory
    decreases run.len(),
{
    if run.len() == 0 {
        history
    } else {
        after_run(history, run.drop_last()).advanced(run.last().0, run.last().1)
    }
}

/// Over a run of samples that all lie above the threshold of a positive
/// history, whose maximum is not below its threshold, the running maximum
/// ends up as the largest of the maximum before the run and the samples of
/// the run, with the time of the sample that set it. The sample that then
/// falls to the threshold or below reports exactly that maximum.
pub proof fn lemma_peak_of_rising_run(
    history: CriticalHistory,
    run: Seq<(i64, u64)>,
    element: i64,
    now: u64,
)
    requires
        history.is_positive,
        history.crossing_threshold <= history.max.amplitude,
        forall|i: int| 0 <= i < run.len() ==> (#[trigger] run[i]).0 > history.crossing_threshold,
        element <= history.crossing_threshold,
    ensures
        after_run(history, run).is_positive,
        after_run(history, run).crossing_threshold == history.crossing_threshold,
        after_run(history, run).max.amplitude >= history.max.amplitude,
        forall|i: int|
            0 <= i < run.len() ==> after_run(history, run).max.amplitude >= (#[trigger] run[i]).0,
        after_run(history, run).max == history.max || exists|i: int|
            0 <= i < run.len() && (#[trigger] run[i]).0 == after_run(history, run).max.amplitude
                && run[i].1 == after_run(history, run).max.timestamp,
        after_run(history, run).critical(element, now) == CriticalValue::Maximum(
            after_run(history, run).max.amplitude,
            after_run(history, run).max.timestamp,
        ),
    decreases run.len(),
{
    if run.len() > 0 {
        let earlier = run.drop_last();
        let before = after_run(history, earlier);
        let last = run.last();
        assert forall|i: int| 0 <= i < earlier.len() implies (#[trigger] earlier[i]).0
            > history.crossing_threshold by {
            assert(earlier[i] == run[i]);
        }
        lemma_peak_of_rising_run(history, earlier, element, now);
        let end = before.advanced(last.0, last.1);
        assert(end == after_run(history, run));
        assert(run[run.len() - 1] == last);
        assert forall|i: int| 0 <= i < run.len() implies end.max.amplitude >= (
        #[trigger] run[i]).0 by {
            if i < earlier.len() {
                assert(earlier[i] == run[i]);
            }
        }
        if end.max != history.max {
            if end.max == before.max {
                let i = choose|i: int|
                    0 <= i < earlier.len() && (#[trigger] earlier[i]).0 == before.max.amplitude
                        && earlier[i].1 == before.max.timestamp;
                assert(run[i] == earlier[i]);
            } else {
                assert(run[run.len() - 1].0 == end.max.amplitude);
            }
        }
    }
}

/// Over a run of samples that all lie at or below the threshold of a negative
/// history, whose extrema lie on either side of its threshold, the running
/// minimum ends up as the smallest of the minimum before the run and the
/// samples of the run, with the time of the sample that set it. The sample
/// that then rises above the threshold reports exactly that minimum.
pub proof fn lemma_trough_of_falling_run(
    history: CriticalHistory,
    run: Seq<(i64, u64)>,
    element: i64,
    now: u64,
)
    requires
        !history.is_positive,
        history.min.amplitude <= history.crossing_threshold <= history.max.amplitude,
        forall|i: int| 0 <= i < run.len() ==> (#[trigger] run[i]).0 <= history.crossing_threshold,
        element > history.crossing_threshold,
    ensures
        !after_run(history, run).is_positive,
        after_run(history, run).crossing_threshold == history.crossing_threshold,
        after_run(history, run).max == history.max,
        after_run(history, run).min.amplitude <= history.min.amplitude,
        forall|i: int|
            0 <= i < run.len() ==> after_run(history, run).min.amplitude <= (#[trigger] run[i]).0,
        after_run(history, run).min == history.min || exists|i: int|
            0 <= i < run.len() && (#[trigger] run[i]).0 == after_run(history, run).min.amplitude
                && run[i].1 == after_run(history, run).min.timestamp,
        after_run(history, run).critical(element, now) == CriticalValue::Minimum(
            after_run(history, run).min.amplitude,
            after_run(history, run).min.timestamp,
        ),
    decreases run.len(),
{
    if run.len() > 0 {
        let earlier = run.drop_last();
        let before = after_run(history, earlier);
        let last = run.last();
        assert forall|i: int| 0 <= i < earlier.len() implies (#[trigger] earlier[i]).0
            <= history.crossing_threshold by {
            assert(earlier[i] == run[i]);
        }
        lemma_trough_of_falling_run(history, earlier, element, now);
        let end = before.advanced(last.0, last.1);
        assert(end == after_run(history, run));
        assert(run[run.len() - 1] == last);
        assert forall|i: int| 0 <= i < run.len() implies end.min.amplitude <= (
        #[trigger] run[i]).0 by {
            if i < earlier.len() {
                assert(earlier[i] == run[i]);
            }
        }
        if end.min != history.min {
            if end.min == before.min {
                let i = choose|i: int|
                    0 <= i < earlier.len() && (#[trigger] earlier[i]).0 == before.min.amplitude
                        && earlier[i].1 == before.min.timestamp;
                assert(run[i] == earlier[i]);
            } else {
                assert(run[run.len() - 1].0 == end.min.amplitude);
            }
        }
    }
}

/// The history of the same signal seen `delay` milliseconds later.
pub open spec fn delayed(history: CriticalHistory, delay: u64) -> CriticalHistory {
    CriticalHistory {
        max: Extremum { timestamp: (history.max.timestamp + delay) as u64, ..history.max },
        min: Extremum { timestamp: (history.min.timestamp + delay) as u64, ..history.min },
        ..history
    }
}

/// What the same signal reveals when it is seen `delay` milliseconds later.
pub open spec fn delayed_value(critical: CriticalValue, delay: u64) -> CriticalValue {
    match critical {
        CriticalValue::Neither => CriticalValue::Neither,
        CriticalValue::Minimum(amplitude, timestamp) => CriticalValue::Minimum(
            amplitude,
            (timestamp + delay) as u64,
        ),
        CriticalValue::Maximum(amplitude, timestamp) => CriticalValue::Maximum(
            amplitude,
            (timestamp + delay) as u64,
        ),
    }
}

/// The detector knows time only by the timestamps that it hands on: a signal
/// seen later gives the same extrema, each later by as much.
pub proof fn lemma_delay(history: CriticalHistory, element: i64, now: u64, delay: u64)
    requires
        now + delay <= u64::MAX,
        history.max.timestamp + delay <= u64::MAX,
        history.min.timestamp + delay <= u64::MAX,
    ensures
        delayed(history, delay).critical(element, (now + delay) as u64) == delayed_value(
            history.critical(element, now),
            delay,
        ),
        delayed(history, delay).advanced(element, (now + delay) as u64) == delayed(
            history.advanced(element, now),
            delay,
        ),
{
}

/// The run of the same samples seen `delay` milliseconds later.
pub open spec fn delayed_run(run: Seq<(i64, u64)>, delay: u64) -> Seq<(i64, u64)> {
    Seq::new(run.len(), |i: int| (run[i].0, (run[i].1 + delay) as u64))
}

/// A whole run seen later leaves the detector in the same state, later by as
/// much, and so the sample after it reveals the same extremum, later by as
/// much.
pub proof fn lemma_delayed_run(
    history: CriticalHistory,
    run: Seq<(i64, u64)>,
    delay: u64,
    element: i64,
    now: u64,
)
    requires
        now + delay <= u64::MAX,
        history.max.timestamp + delay <= u64::MAX,
        history.min.timestamp + delay <= u64::MAX,
        forall|i: int| 0 <= i < run.len() ==> (#[trigger] run[i]).1 + delay <= u64::MAX,
    ensures
        after_run(delayed(history, delay), delayed_run(run, delay)) == delayed(
            after_run(history, run),
            delay,
        ),
        after_run(delayed(history, delay), delayed_run(run, delay)).critical(
            element,
            (now + delay) as u64,
        ) == delayed_value(after_run(history, run).critical(element, now), delay),
        after_run(history, run).max.timestamp + delay <= u64::MAX,
        after_run(history, run).min.timestamp + delay <= u64::MAX,
    decreases run.len(),
{
    if run.len() > 0 {
        let earlier = run.drop_last();
        let last = run.last();
        assert forall|i: int| 0 <= i < earlier.len() implies (#[trigger] earlier[i]).1 + delay
            <= u64::MAX by {
            assert(earlier[i] == run[i]);
        }
        lemma_delayed_run(history, earlier, delay, element, now);
        assert(run[run.len() - 1] == last);
        assert(delayed_run(run, delay).drop_last() =~= delayed_run(earlier, delay));
        assert(delayed_run(run, delay).last() == (last.0, (last.1 + delay) as u64));
        lemma_delay(after_run(history, earlier), last.0, last.1, delay);
    }
    lemma_delay(after_run(history, run), element, now, delay);
}

/// A reported peak is at least the sample that revealed it and at least the
/// running maximum before it; a reported trough is at most the running minimum.
pub proof fn lemma_extremum_bounds(history: CriticalHistory, element: i64, now: u64)
    ensures
        history.critical(element, now) matches CriticalValue::Maximum(amplitude, _)
            ==> amplitude >= element && amplitude >= history.max.amplitude,
        history.critical(element, now) matches CriticalValue::Minimum(amplitude, _)
            ==> amplitude <= history.min.amplitude,
{
}

} // verus!
