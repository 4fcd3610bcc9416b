//! From filtered samples to vital signs.
//!
//! Per sample the pipeline decides whether the wrist is there, follows each
//! channel's pulse for its peaks and troughs, turns the peaks of the green
//! channel into a heart rate and the red and infrared channels into a
//! saturation, and keeps the results for the notification layer.

use vstd::prelude::*;
use crate::data_sending::{FilteredData, Results};
use crate::heart_rate::{rate_of, HeartRateMonitor, RR_WINDOW};
use crate::oxygen_saturation::{
    perfusion_index,
    spec_perfusion_index,
    FilteredSample,
    OxygenConfiguration,
    OxygenEstimator,
    OxygenReading,
};
use crate::quantity::{
    clamp,
    limit,
    photocurrent,
    saturate,
    spec_photocurrent,
    Current,
    Resistance,
    Voltage,
};
use crate::rolling_median::median_of;
use crate::signal_processing::{find_critical_value, CriticalHistory, CriticalValue, Extremum};
use crate::timer::Timer;

verus! {

/// The ambient current, in picoamperes, that a present wrist stays below.
pub const AMBIENT_LIMIT: i64 = 1_000_000;

/// The infrared current, in picoamperes, that a present wrist exceeds.
pub const INFRARED_LIMIT: i64 = 10_000_000;

/// Whether the currents are those of a wrist under the sensor: little ambient
/// light gets in, and much infrared light comes back.
pub open spec fn spec_wrist_present(ambient: Current, infrared: Current) -> bool {
    ambient.picoamperes < AMBIENT_LIMIT && infrared.picoamperes > INFRARED_LIMIT
}

/// The photocurrent of a channel without the ambient light and the offset
/// current, limited to what a current can hold.
pub open spec fn spec_refined_current(
    voltage: Voltage,
    resistor: Resistance,
    offset: Current,
    ambient: Current,
) -> int {
    clamp(
        spec_photocurrent(voltage.microvolts as int, resistor.ohms as int) - offset.picoamperes
            - ambient.picoamperes,
        i64::MIN as int,
        i64::MAX as int,
    )
}

/// The distance from a peak down to a trough, limited to what fits.
pub open spec fn spec_amplitude(peak: i64, trough: i64) -> int {
    clamp(peak - trough, i64::MIN as int, i64::MAX as int)
}

/// Tells whether the wrist is under the sensor.
pub fn wrist_present(ambient: Current, infrared: Current) -> (r: bool)
    ensures
        r == spec_wrist_present(ambient, infrared),
{
    ambient.picoamperes < AMBIENT_LIMIT && infrared.picoamperes > INFRARED_LIMIT
}

/// Converts a channel's voltage into its photocurrent and removes the ambient
/// light and the offset current from it.
pub fn refined_current(
    voltage: Voltage,
    resistor: Resistance,
    offset: Current,
    ambient: Current,
) -> (r: Current)
    requires
        resistor.ohms > 0,
    ensures
        r.picoamperes == spec_refined_current(voltage, resistor, offset, ambient),
{
    let raw = photocurrent(voltage, resistor);
    proof {
        crate::quantity::lemma_trunc_div_bounds(
            voltage.microvolts * 1_000_000,
            2 * resistor.ohms,
        );
    }
    saturate(raw.picoamperes as i128 - offset.picoamperes as i128 - ambient.picoamperes as i128)
}

/// What one sample revealed of a channel.
#[derive(Clone, Copy, Debug, PartialEq, Eq, Structural)]
pub struct ChannelReport {
    pub critical: CriticalValue,
    /// The perfusion index, when the sample revealed a trough after a peak on
    /// a positive baseline.
    pub perfusion_index: Option<i64>,
}

/// The pulse of one channel: its detector, the peak seen last and the timer
/// that puts a stale threshold back to zero.
#[derive(Clone, Copy, Debug, PartialEq, Eq, Structural)]
pub struct Channel {
    pub history: CriticalHistory,
    pub previous_maximum: Option<Extremum>,
    pub threshold_timer: Timer,
}

impl Channel {
    /// The detector as it takes the next sample: with its threshold at zero
    /// if the threshold has not been crossed for too long.
    pub open spec fn armed(self, now: u64) -> CriticalHistory {
        if self.threshold_timer.expired(now) {
            CriticalHistory { crossing_threshold: 0, ..self.history }
        } else {
            self.history
        }
    }

    /// What the sample reveals.
    pub open spec fn critical(self, sample: FilteredSample, now: u64) -> CriticalValue {
        self.armed(now).critical(sample.ac, now)
    }

    /// The perfusion index that the sample gives, if any: at a trough, the
    /// distance from the peak before it over the baseline.
    pub open spec fn index(self, sample: FilteredSample, now: u64) -> Option<i64> {
        match (self.critical(sample, now), self.previous_maximum) {
            (CriticalValue::Minimum(trough, _), Some(peak)) => match spec_perfusion_index(
                spec_amplitude(peak.amplitude, trough),
                sample.dc as int,
            ) {
                Some(index) => Some(index as i64),
                None => None,
            },
            _ => None,
        }
    }

    /// The channel after the sample. A peak becomes the peak seen last. A
    /// trough after a peak moves the threshold to follow the pulse, and starts
    /// the threshold's timer again.
    pub open spec fn fed(self, sample: FilteredSample, now: u64, percent: u8) -> Channel {
        let history = self.armed(now).advanced(sample.ac, now);
        match (self.critical(sample, now), self.previous_maximum) {
            (CriticalValue::Maximum(amplitude, timestamp), _) => Channel {
                history,
                previous_maximum: Some(Extremum { amplitude, timestamp }),
                ..self
            },
            (CriticalValue::Minimum(trough, _), Some(peak)) => Channel {
                history: CriticalHistory {
                    crossing_threshold: CriticalHistory::threshold_for(
                        peak.amplitude - trough,
                        percent as int,
                    ) as i64,
                    ..history
                },
                threshold_timer: Timer { instant: now, ..self.threshold_timer },
                ..self
            },
            _ => Channel { history, ..self },
        }
    }

    /// The channel with its threshold at zero.
    pub open spec fn rearmed(self) -> Channel {
        Channel { history: CriticalHistory { crossing_threshold: 0, ..self.history }, ..self }
    }

    /// Creates the channel of a pulse that has not been seen yet.
    pub fn new(threshold_timeout: u64, now: u64) -> (r: Channel)
        ensures
            r.history.crossing_threshold == 0,
            r.history.is_positive,
            r.history.max == (Extremum { amplitude: 0, timestamp: 0 }),
            r.history.min == (Extremum { amplitude: 0, timestamp: 0 }),
            r.previous_maximum.is_none(),
            r.threshold_timer == (Timer { duration: threshold_timeout, instant: now }),
    {
        Channel {
            history: CriticalHistory::new(),
            previous_maximum: None,
            threshold_timer: Timer::new(threshold_timeout, now),
        }
    }

    /// Feeds one filtered sample, seen at `now`, to the channel.
    pub fn feed(&mut self, sample: FilteredSample, now: u64, percent: u8) -> (r: ChannelReport)
        ensures
            *final(self) == old(self).fed(sample, now, percent),
            r.critical == old(self).critical(sample, now),
            r.perfusion_index == old(self).index(sample, now),
    {
        if self.threshold_timer.is_expired(now) {
            self.history.reset_threshold();
        }
        let critical = find_critical_value(sample.ac, now, &mut self.history);
        let mut index: Option<i64> = None;
        match critical {
            CriticalValue::Maximum(amplitude, timestamp) => {
                self.previous_maximum = Some(Extremum { amplitude, timestamp });
            },
            CriticalValue::Minimum(trough, _) => {
                if let Some(peak) = self.previous_maximum {
                    let distance = limit(peak.amplitude as i128 - trough as i128);
                    index = perfusion_index(distance, sample.dc);
                    self.history.adapt_threshold(peak.amplitude, trough, percent);
                    self.threshold_timer.reset(now);
                }
            },
            CriticalValue::Neither => {},
        }
        ChannelReport { critical, perfusion_index: index }
    }
}

/// What the pipeline is set up with.
#[derive(Clone, Copy, Debug, PartialEq, Eq, Structural)]
pub struct Configuration {
    /// Milliseconds that the front-end needs after any change of its settings.
    pub settle_time: u64,
    /// Milliseconds that the filters and the front-end need together.
    pub filter_settle_time: u64,
    /// Milliseconds without a crossing after which a threshold goes to zero.
    pub threshold_timeout: u64,
    /// Hundredths of the pulse amplitude that the threshold is put at.
    pub threshold_percent: u8,
    pub oxygen: OxygenConfiguration,
}

impl Default for Configuration {
    /// A front-end that settles in 200 ms, filters of 85 samples at 50 ms each
    /// with a margin of 200 ms, thresholds at a fifth of the pulse that go
    /// stale after two seconds, and the default saturation estimator.
    fn default() -> (r: Self)
        ensures
            r.settle_time == 200,
            r.filter_settle_time == 4_650,
            r.threshold_timeout == 2_000,
            r.threshold_percent == 20,
            r.oxygen.batch == 60,
            r.oxygen.red_index_floor == 60,
            r.oxygen.line.slope == -752_050,
            r.oxygen.line.intercept == 1_608_698,
    {
        Configuration {
            settle_time: 200,
            filter_settle_time: 85 * 50 + 200 + 200,
            threshold_timeout: 2_000,
            threshold_percent: 20,
            oxygen: OxygenConfiguration::default(),
        }
    }
}

/// What to do about the wrist.
#[derive(Clone, Copy, Debug, PartialEq, Eq, Structural)]
pub struct WristDecision {
    pub present: bool,
    /// Whether the wrist was absent at the sample before.
    pub appeared: bool,
    /// The current to command on all three LEDs, when the wrist is absent.
    pub led_command: Option<Current>,
}

/// The state of the pipeline.
pub struct VitalSigns {
    pub results: Results,
    pub filtered: FilteredData,
    pub green: Channel,
    pub red: Channel,
    pub infrared: Channel,
    pub heart: HeartRateMonitor,
    pub oxygen: OxygenEstimator,
    pub settle_timer: Timer,
    pub filter_timer: Timer,
    pub threshold_percent: u8,
}

impl VitalSigns {
    /// The invariant of the pipeline: that of its monitor and its estimator.
    pub open spec fn wf(&self) -> bool {
        self.heart.wf() && self.oxygen.wf()
    }

    /// The heart rate after a sample that revealed `critical` on the green
    /// channel: that of the filtered interval, if the sample revealed a peak at
    /// an accepted interval from the peak before it.
    pub open spec fn heart_rate_after(&self, critical: CriticalValue) -> u64 {
        match critical {
            CriticalValue::Maximum(_, time) => if self.heart.accepts(time) {
                rate_of(
                    median_of(
                        RR_WINDOW as nat,
                        self.heart.intervals().push(
                            crate::heart_rate::interval(
                                self.heart.previous().unwrap().timestamp,
                                time,
                            ),
                        ),
                    ),
                )
            } else {
                self.results.heart_rate
            },
            _ => self.results.heart_rate,
        }
    }

    /// The intervals that the monitor has accepted after a sample that
    /// revealed `critical` on the green channel.
    pub open spec fn intervals_after(&self, critical: CriticalValue) -> Seq<u64> {
        match critical {
            CriticalValue::Maximum(_, time) => if self.heart.accepts(time) {
                self.heart.intervals().push(
                    crate::heart_rate::interval(self.heart.previous().unwrap().timestamp, time),
                )
            } else {
                self.heart.intervals()
            },
            _ => self.heart.intervals(),
        }
    }

    /// The peak that the monitor measures the next interval from, after a
    /// sample that revealed `critical` on the green channel.
    pub open spec fn peak_after(&self, critical: CriticalValue) -> Option<Extremum> {
        match critical {
            CriticalValue::Maximum(amplitude, timestamp) => Some(Extremum { amplitude, timestamp }),
            _ => self.heart.previous(),
        }
    }

    /// The results after filtered samples that were taken at `now`, once the
    /// filters have settled.
    pub open spec fn results_after(&self, samples: FilteredData, now: u64) -> Results {
        let reading = self.oxygen@.reading(samples.led2, samples.led3);
        Results {
            wrist_presence: self.results.wrist_presence,
            heart_rate: self.heart_rate_after(self.green.critical(samples.led1, now)),
            spo2: match reading.saturation {
                Some(saturation) => saturation,
                None => self.results.spo2,
            },
            r: match reading.ratio {
                Some(ratio) => ratio,
                None => self.results.r,
            },
            led1_pi: match self.green.index(samples.led1, now) {
                Some(index) => index,
                None => self.results.led1_pi,
            },
            led2_pi: match self.red.index(samples.led2, now) {
                Some(index) => index,
                None => self.results.led2_pi,
            },
            led3_pi: match self.infrared.index(samples.led3, now) {
                Some(index) => index,
                None => self.results.led3_pi,
            },
        }
    }

    /// Creates a pipeline at `now`: no wrist, no results, all timers started.
    pub fn new(configuration: Configuration, now: u64) -> (r: VitalSigns)
        requires
            configuration.oxygen.batch > 0,
        ensures
            r.wf(),
            !r.results.wrist_presence,
            r.results.heart_rate == 0 && r.results.spo2 == 0 && r.results.r == 0,
            r.results.led1_pi == 0 && r.results.led2_pi == 0 && r.results.led3_pi == 0,
            r.green.history.crossing_threshold == 0,
            r.red.history.crossing_threshold == 0,
            r.infrared.history.crossing_threshold == 0,
            r.green.previous_maximum.is_none(),
            r.heart.previous().is_none(),
            r.heart.intervals() == Seq::<u64>::empty(),
            r.oxygen@.configuration == configuration.oxygen,
            r.settle_timer == (Timer { duration: configuration.settle_time, instant: now }),
            r.filter_timer == (Timer { duration: configuration.filter_settle_time, instant: now }),
            r.threshold_percent == configuration.threshold_percent,
    {
        VitalSigns {
            results: Results::new(),
            filtered: FilteredData::new(),
            green: Channel::new(configuration.threshold_timeout, now),
            red: Channel::new(configuration.threshold_timeout, now),
            infrared: Channel::new(configuration.threshold_timeout, now),
            heart: HeartRateMonitor::new(),
            oxygen: OxygenEstimator::new(configuration.oxygen),
            settle_timer: Timer::new(configuration.settle_time, now),
            filter_timer: Timer::new(configuration.filter_settle_time, now),
            threshold_percent: configuration.threshold_percent,
        }
    }

    /// Decides from the ambient and the infrared current whether the wrist is
    /// there.
    ///
    /// A wrist that has just appeared starts both settle timers. Without a
    /// wrist the presence is withdrawn, every crossing threshold goes back to
    /// zero, and the LEDs are to be turned off.
    pub fn observe_wrist(&mut self, ambient: Current, infrared: Current, now: u64) -> (r:
        WristDecision)
        requires
            old(self).wf(),
        ensures
            final(self).wf(),
            r.present == spec_wrist_present(ambient, infrared),
            r.appeared == (r.present && !old(self).results.wrist_presence),
            r.led_command == if r.present {
                None
            } else {
                Some(Current { picoamperes: 0 })
            },
            final(self).results == (Results { wrist_presence: r.present, ..old(self).results }),
            final(self).heart.previous() == old(self).heart.previous(),
            final(self).heart.intervals() == old(self).heart.intervals(),
            final(self).oxygen@ == old(self).oxygen@,
            final(self).threshold_percent == old(self).threshold_percent,
            final(self).filtered == old(self).filtered,
            r.present ==> {
                &&& final(self).green == old(self).green
                &&& final(self).red == old(self).red
                &&& final(self).infrared == old(self).infrared
            },
            !r.present ==> {
                &&& final(self).green == old(self).green.rearmed()
                &&& final(self).red == old(self).red.rearmed()
                &&& final(self).infrared == old(self).infrared.rearmed()
                &&& final(self).green.history.crossing_threshold == 0
                &&& final(self).red.history.crossing_threshold == 0
                &&& final(self).infrared.history.crossing_threshold == 0
            },
            r.appeared ==> {
                &&& final(self).settle_timer == (Timer { instant: now, ..old(self).settle_timer })
                &&& final(self).filter_timer == (Timer { instant: now, ..old(self).filter_timer })
            },
            !r.appeared ==> {
                &&& final(self).settle_timer == old(self).settle_timer
                &&& final(self).filter_timer == old(self).filter_timer
            },
    {
        if wrist_present(ambient, infrared) {
            let appeared = !self.results.wrist_presence;
            if appeared {
                self.results.wrist_presence = true;
                self.settle_timer.reset(now);
                self.filter_timer.reset(now);
            }
            WristDecision { present: true, appeared, led_command: None }
        } else {
            self.results.wrist_presence = false;
            self.green.history.reset_threshold();
            self.red.history.reset_threshold();
            self.infrared.history.reset_threshold();
            WristDecision {
                present: false,
                appeared: false,
                led_command: Some(Current { picoamperes: 0 }),
            }
        }
    }

    /// Notes at `now` that a calibrator has changed the front-end: what the
    /// front-end and the filters hold is stale until both timers have run
    /// again.
    pub fn calibrated(&mut self, now: u64)
        requires
            old(self).wf(),
        ensures
            final(self).wf(),
            final(self).settle_timer == (Timer { instant: now, ..old(self).settle_timer }),
            final(self).filter_timer == (Timer { instant: now, ..old(self).filter_timer }),
            final(self).results == old(self).results,
            final(self).filtered == old(self).filtered,
            final(self).green == old(self).green,
            final(self).red == old(self).red,
            final(self).infrared == old(self).infrared,
            final(self).heart.previous() == old(self).heart.previous(),
            final(self).heart.intervals() == old(self).heart.intervals(),
            final(self).oxygen@ == old(self).oxygen@,
            final(self).threshold_percent == old(self).threshold_percent,
    {
        self.settle_timer.reset(now);
        self.filter_timer.reset(now);
    }

    /// Tells whether the front-end has settled at `now`, so that its samples
    /// may be filtered.
    pub fn settled(&self, now: u64) -> (r: bool)
        ensures
            r == self.settle_timer.expired(now),
    {
        self.settle_timer.is_expired(now)
    }

    /// Takes the filtered samples of the three channels, taken at `now`.
    ///
    /// The samples are kept for the notification layer. Once the filters have
    /// settled, each channel's detector sees its sample; a peak of the green
    /// channel goes to the heart-rate monitor, a trough of any channel gives
    /// that channel's perfusion index, and the red and infrared samples go to
    /// the saturation estimator. A value that could not be derived leaves the
    /// one published before it in place.
    pub fn process(&mut self, samples: FilteredData, now: u64)
        requires
            old(self).wf(),
        ensures
            final(self).wf(),
            final(self).settle_timer == old(self).settle_timer,
            final(self).filter_timer == old(self).filter_timer,
            final(self).threshold_percent == old(self).threshold_percent,
            final(self).filtered == (FilteredData {
                led1_threshold: final(self).green.history.crossing_threshold,
                led2_threshold: final(self).red.history.crossing_threshold,
                led3_threshold: final(self).infrared.history.crossing_threshold,
                ..samples
            }),
            !old(self).filter_timer.expired(now) ==> {
                &&& final(self).results == old(self).results
                &&& final(self).green == old(self).green
                &&& final(self).red == old(self).red
                &&& final(self).infrared == old(self).infrared
                &&& final(self).heart.previous() == old(self).heart.previous()
                &&& final(self).heart.intervals() == old(self).heart.intervals()
                &&& final(self).oxygen@ == old(self).oxygen@
            },
            old(self).filter_timer.expired(now) ==> {
                &&& final(self).results == old(self).results_after(samples, now)
                &&& final(self).green == old(self).green.fed(
                    samples.led1,
                    now,
                    old(self).threshold_percent,
                )
                &&& final(self).red == old(self).red.fed(
                    samples.led2,
                    now,
                    old(self).threshold_percent,
                )
                &&& final(self).infrared == old(self).infrared.fed(
                    samples.led3,
                    now,
                    old(self).threshold_percent,
                )
                &&& final(self).heart.previous() == old(self).peak_after(
                    old(self).green.critical(samples.led1, now),
                )
                &&& final(self).heart.intervals() == old(self).intervals_after(
                    old(self).green.critical(samples.led1, now),
                )
                &&& final(self).oxygen@ == old(self).oxygen@.pushed(samples.led2, samples.led3)
            },
    {
        if self.filter_timer.is_expired(now) {
            let green = self.green.feed(samples.led1, now, self.threshold_percent);
            let red = self.red.feed(samples.led2, now, self.threshold_percent);
            let infrared = self.infrared.feed(samples.led3, now, self.threshold_percent);
            if let CriticalValue::Maximum(amplitude, time) = green.critical {
                if let Some(rate) = self.heart.maximum(amplitude, time) {
                    self.results.heart_rate = rate;
                }
            }
            if let Some(index) = green.perfusion_index {
                self.results.led1_pi = index;
            }
            if let Some(index) = red.perfusion_index {
                self.results.led2_pi = index;
            }
            if let Some(index) = infrared.perfusion_index {
                self.results.led3_pi = index;
            }
            let reading: OxygenReading = self.oxygen.push(samples.led2, samples.led3);
            if let Some(ratio) = reading.ratio {
                self.results.r = ratio;
            }
            if let Some(saturation) = reading.saturation {
                self.results.spo2 = saturation;
            }
        }
        self.filtered = FilteredData {
            led1: samples.led1,
            led2: samples.led2,
            led3: samples.led3,
            led1_threshold: self.green.history.crossing_threshold,
            led2_threshold: self.red.history.crossing_threshold,
            led3_threshold: self.infrared.history.crossing_threshold,
        };
    }
}

/// Currents at or beyond the limits are those of an absent wrist: an ambient
/// current of a microampere or more, or an infrared current of ten
/// microamperes or less.
pub proof fn lemma_wrist_limits(ambient: Current, infrared: Current)
    ensures
        ambient.picoamperes >= 1_000_000 ==> !spec_wrist_present(ambient, infrared),
        infrared.picoamperes <= 10_000_000 ==> !spec_wrist_present(ambient, infrared),
        ambient.picoamperes < 1_000_000 && infrared.picoamperes > 10_000_000 ==> spec_wrist_present(
            ambient,
            infrared,
        ),
{
}

} // verus!
