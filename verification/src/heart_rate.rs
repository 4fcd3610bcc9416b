//! Heart rate from the times of successive peaks of the pulse.

use vstd::prelude::*;
use crate::rolling_median::{median_of, MedianFilter};
use crate::signal_processing::Extremum;

verus! {

/// The shortest interval between two beats, in milliseconds, is longer than
/// this.
pub const RR_LOWER_BOUND: u64 = 250;

/// The longest interval between two beats, in milliseconds, is shorter than
/// this.
pub const RR_UPPER_BOUND: u64 = 2000;

/// The window of the median filter over the intervals.
pub const RR_WINDOW: usize = 21;

/// Thousandths of a beat per minute in one beat per millisecond.
pub const MILLIBEATS_PER_MINUTE: u64 = 60_000_000;

/// Whether an interval between two beats is one that a heart can produce.
pub open spec fn plausible_interval(rr: u64) -> bool {
    RR_LOWER_BOUND < rr < RR_UPPER_BOUND
}

/// The interval from the peak at `previous` to the one at `now`; none if the
/// times are out of order.
pub open spec fn interval(previous: u64, now: u64) -> u64 {
    if now >= previous {
        (now - previous) as u64
    } else {
        0
    }
}

/// The heart rate, in thousandths of a beat per minute, of beats that are `rr`
/// milliseconds apart.
pub open spec fn rate_of(rr: u64) -> u64 {
    (MILLIBEATS_PER_MINUTE / rr) as u64
}

/// Tells whether an interval between two beats is accepted.
pub fn accept_interval(rr: u64) -> (r: bool)
    ensures
        r == plausible_interval(rr),
{
    rr > RR_LOWER_BOUND && rr < RR_UPPER_BOUND
}

/// Computes the heart rate of beats that are `rr` milliseconds apart.
pub fn heart_rate_from_interval(rr: u64) -> (r: u64)
    requires
        rr > 0,
    ensures
        r == rate_of(rr),
{
    MILLIBEATS_PER_MINUTE / rr
}

/// Follows the peaks of the pulse and turns the intervals between them into a
/// heart rate.
pub struct HeartRateMonitor {
    filter: MedianFilter,
    previous_maximum: Option<Extremum>,
}

impl HeartRateMonitor {
    /// The invariant of the monitor: its filter has only ever seen plausible
    /// intervals.
    pub closed spec fn wf(&self) -> bool {
        &&& self.filter.wf()
        &&& self.filter.size() == RR_WINDOW
        &&& forall|i: int|
            0 <= i < self.filter.samples().len() ==> plausible_interval(
                #[trigger] self.filter.samples()[i],
            )
    }

    /// The peak seen last, if any.
    pub closed spec fn previous(&self) -> Option<Extremum> {
        self.previous_maximum
    }

    /// The intervals accepted so far, oldest first.
    pub closed spec fn intervals(&self) -> Seq<u64> {
        self.filter.samples()
    }

    /// Whether a peak at `time` completes an interval that is accepted.
    pub open spec fn accepts(&self, time: u64) -> bool {
        match self.previous() {
            Some(previous) => plausible_interval(interval(previous.timestamp, time)),
            None => false,
        }
    }

    /// Creates a monitor that has seen no peak.
    pub fn new() -> (r: HeartRateMonitor)
        ensures
            r.wf(),
            r.previous().is_none(),
            r.intervals() == Seq::<u64>::empty(),
    {
        HeartRateMonitor { filter: MedianFilter::new(RR_WINDOW), previous_maximum: None }
    }

    /// Takes the peak of `amplitude` seen at `time`.
    ///
    /// The interval since the peak before it is accepted only if a heart can
    /// produce it. An accepted interval goes through the median filter, and
    /// the heart rate of the filter's answer is returned. A rejected interval
    /// reaches neither the filter nor the caller. Either way the peak becomes
    /// the one to measure the next interval from.
    pub fn maximum(&mut self, amplitude: i64, time: u64) -> (rate: Option<u64>)
        requires
            old(self).wf(),
        ensures
            final(self).wf(),
            final(self).previous() == Some(Extremum { amplitude, timestamp: time }),
            rate.is_some() <==> old(self).accepts(time),
            old(self).accepts(time) ==> {
                &&& final(self).intervals() == old(self).intervals().push(
                    interval(old(self).previous().unwrap().timestamp, time),
                )
                &&& rate == Some(rate_of(median_of(RR_WINDOW as nat, final(self).intervals())))
                &&& plausible_interval(median_of(RR_WINDOW as nat, final(self).intervals()))
            },
            !old(self).accepts(time) ==> final(self).intervals() == old(self).intervals(),
    {
        let mut rate: Option<u64> = None;
        if let Some(previous) = self.previous_maximum {
            let rr: u64 = if time >= previous.timestamp {
                time - previous.timestamp
            } else {
                0
            };
            if accept_interval(rr) {
                let filtered = self.filter.consume(rr);
                proof {
                    let samples = self.filter.samples();
                    let i = choose|i: int| 0 <= i < samples.len() && samples[i] == filtered;
                    assert(plausible_interval(samples[i]));
                }
                rate = Some(heart_rate_from_interval(filtered));
            }
        }
        self.previous_maximum = Some(Extremum { amplitude, timestamp: time });
        rate
    }

    /// Forgets the peak seen last, so that the next peak starts a new series
    /// of intervals.
    pub fn forget_peak(&mut self)
        requires
            old(self).wf(),
        ensures
            final(self).wf(),
            final(self).previous().is_none(),
            final(self).intervals() == old(self).intervals(),
    {
        self.previous_maximum = None;
    }
}

/// A monitor that has only ever accepted one interval publishes the rate of
/// that interval when it accepts it again.
pub proof fn lemma_steady_rate(intervals: Seq<u64>, rr: u64)
    requires
        forall|i: int| 0 <= i < intervals.len() ==> intervals[i] == rr,
    ensures
        rate_of(median_of(RR_WINDOW as nat, intervals.push(rr))) == rate_of(rr),
{
    crate::rolling_median::lemma_median_of_constant(RR_WINDOW as nat, intervals.push(rr), rr);
}

/// An interval of 250 ms or less, or of 2000 ms or more, is rejected: rates
/// above 240 and below 30 beats per minute are never published.
pub proof fn lemma_interval_gate(rr: u64)
    ensures
        rr <= 250 ==> !plausible_interval(rr),
        rr >= 2000 ==> !plausible_interval(rr),
        250 < rr < 2000 ==> plausible_interval(rr),
        plausible_interval(rr) ==> 30_000 < rate_of(rr) < 240_000,
{
    if plausible_interval(rr) {
        let q: int = 60_000_000int / (rr as int);
        vstd::arithmetic::div_mod::lemma_fundamental_div_mod(60_000_000, rr as int);
        assert(30_000 < q < 240_000) by (nonlinear_arith)
            requires
                250 < rr < 2000,
                60_000_000int == rr * q + 60_000_000int % (rr as int),
                0 <= 60_000_000int % (rr as int) < rr,
        ;
    }
}

} // verus!
