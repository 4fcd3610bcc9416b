//! Blood-oxygen saturation from the red and infrared channels.
//!
//! Indices, ratios and saturations are fixed-point numbers in ten-thousandths:
//! a perfusion index of 200 is 0.02 %, a ratio of 20 000 is 2.0 and a
//! saturation of 950 000 is 95 %.

use vstd::prelude::*;
use crate::quantity::{clamp, trunc_div};
use crate::rolling_median::{median_of, MedianFilter};
use crate::standard_deviation::{MovingStandardDeviation, MovingView};

verus! {

/// Ten-thousandths in one.
pub const SCALE: i64 = 10_000;

/// Ten-thousandths of a percent in a ratio of one.
pub const INDEX_SCALE: i64 = 1_000_000;

/// The lowest saturation that is published: 80 %.
pub const SATURATION_MIN: i64 = 800_000;

/// The highest saturation that is published: 100 %.
pub const SATURATION_MAX: i64 = 1_000_000;

/// The window of the moving deviation over each channel.
pub const DEVIATION_WINDOW: usize = 300;

/// The window of the median filter over the ratios.
pub const RATIO_WINDOW: usize = 51;

/// One channel after filtering: its baseline and its pulsatile part.
#[derive(Clone, Copy, Debug, PartialEq, Eq, Structural)]
pub struct FilteredSample {
    pub dc: i64,
    pub ac: i64,
}

/// The line that maps a ratio to a saturation.
#[derive(Clone, Copy, Debug, PartialEq, Eq, Structural)]
pub struct SaturationLine {
    /// Saturation gained per unit of ratio.
    pub slope: i64,
    /// Saturation at a ratio of zero.
    pub intercept: i64,
}

/// What the estimator is set up with.
#[derive(Clone, Copy, Debug, PartialEq, Eq, Structural)]
pub struct OxygenConfiguration {
    /// How many ratios are averaged into one saturation.
    pub batch: u32,
    /// The red perfusion index that a ratio must exceed to count.
    pub red_index_floor: i64,
    pub line: SaturationLine,
}

impl Default for OxygenConfiguration {
    /// Batches of sixty ratios, a floor of 0.006 % for the red perfusion
    /// index, and the line fitted at the wrist.
    fn default() -> (r: Self)
        ensures
            r.batch == 60,
            r.red_index_floor == 60,
            r.line.slope == -752_050,
            r.line.intercept == 1_608_698,
    {
        OxygenConfiguration { batch: 60, red_index_floor: 60, line: SaturationLine::wrist() }
    }
}

/// What one sample pair gave.
#[derive(Clone, Copy, Debug, PartialEq, Eq, Structural)]
pub struct OxygenReading {
    /// The red perfusion index, unless the red baseline rules it out.
    pub red_index: Option<i64>,
    /// The infrared perfusion index, unless the infrared baseline rules it out.
    pub infrared_index: Option<i64>,
    /// The averaged ratio, when this sample completed a batch.
    pub ratio: Option<u64>,
    /// The saturation of the averaged ratio, when it is a valid one.
    pub saturation: Option<i64>,
}

/// The perfusion index of a pulse of `ac` on a baseline of `dc`: their ratio in
/// percent. A baseline that is not positive gives none.
pub open spec fn spec_perfusion_index(ac: int, dc: int) -> Option<int> {
    if dc <= 0 {
        None
    } else {
        Some(clamp(trunc_div(ac * 1_000_000, dc), i64::MIN as int, i64::MAX as int))
    }
}

/// The ratio of the red to the infrared perfusion index. It counts only if the
/// red index exceeds the floor and the infrared index is positive.
pub open spec fn spec_ratio(red: Option<int>, infrared: Option<int>, floor: int) -> Option<int> {
    match (red, infrared) {
        (Some(r), Some(i)) => if r > floor && r > 0 && i > 0 {
            Some(clamp(r * 10_000 / i, 0, u64::MAX as int))
        } else {
            None
        },
        _ => None,
    }
}

/// A sample as the moving deviation takes it.
pub open spec fn spec_narrow(ac: int) -> int {
    clamp(ac, i32::MIN as int, i32::MAX as int)
}

impl SaturationLine {
    /// The saturation that the line gives for `ratio`.
    pub open spec fn at(self, ratio: int) -> int {
        trunc_div(self.slope * ratio, 10_000) + self.intercept
    }

    /// Whether the line gives a saturation between 80 % and 100 % for `ratio`.
    pub open spec fn valid_at(self, ratio: int) -> bool {
        SATURATION_MIN <= self.at(ratio) <= SATURATION_MAX
    }

    /// The published saturation for `ratio`, if there is one.
    pub open spec fn published(self, ratio: int) -> Option<i64> {
        if self.valid_at(ratio) {
            Some(self.at(ratio) as i64)
        } else {
            None
        }
    }

    /// The line fitted to measurements at the wrist.
    pub fn wrist() -> (r: SaturationLine)
        ensures
            r.slope == -752_050,
            r.intercept == 1_608_698,
    {
        SaturationLine { slope: -752_050, intercept: 1_608_698 }
    }

    /// Maps an averaged ratio to a saturation. A saturation outside 80 % to
    /// 100 % is invalid and withheld.
    pub fn saturation(&self, ratio: u64) -> (r: Option<i64>)
        ensures
            r == self.published(ratio as int),
    {
        let slope: i128 = self.slope as i128;
        let wide: i128 = ratio as i128;
        assert(-0x8000_0000_0000_0000 * 0xffff_ffff_ffff_ffff <= slope * wide
            <= 0x8000_0000_0000_0000 * 0xffff_ffff_ffff_ffff) by (nonlinear_arith)
            requires
                -0x8000_0000_0000_0000 <= slope <= 0x8000_0000_0000_0000,
                0 <= wide <= 0xffff_ffff_ffff_ffff,
        ;
        let product: i128 = slope * wide;
        let scaled: i128 = product / 10_000;
        proof {
            crate::quantity::lemma_trunc_div_bounds(product as int, 10_000);
        }
        let value: i128 = scaled + self.intercept as i128;
        if value >= SATURATION_MIN as i128 && value <= SATURATION_MAX as i128 {
            Some(value as i64)
        } else {
            None
        }
    }
}

/// Computes the perfusion index of a pulse of `ac` on a baseline of `dc`.
pub fn perfusion_index(ac: i64, dc: i64) -> (r: Option<i64>)
    ensures
        r.is_some() <==> dc > 0,
        match r {
            Some(index) => spec_perfusion_index(ac as int, dc as int) == Some(index as int),
            None => spec_perfusion_index(ac as int, dc as int).is_none(),
        },
{
    if dc <= 0 {
        None
    } else {
        let scaled: i128 = (ac as i128) * 1_000_000;
        let index: i128 = scaled / (dc as i128);
        Some(crate::quantity::limit(index))
    }
}

/// Computes the ratio of the red to the infrared perfusion index, if it
/// counts.
pub fn index_ratio(red: Option<i64>, infrared: Option<i64>, floor: i64) -> (r: Option<u64>)
    ensures
        match r {
            Some(ratio) => spec_ratio(spec_widen(red), spec_widen(infrared), floor as int) == Some(
                ratio as int,
            ),
            None => spec_ratio(spec_widen(red), spec_widen(infrared), floor as int).is_none(),
        },
{
    match (red, infrared) {
        (Some(r), Some(i)) => {
            if r > floor && r > 0 && i > 0 {
                let scaled: u128 = (r as u128) * 10_000;
                let ratio: u128 = scaled / (i as u128);
                if ratio > u64::MAX as u128 {
                    Some(u64::MAX)
                } else {
                    Some(ratio as u64)
                }
            } else {
                None
            }
        },
        _ => None,
    }
}

/// An index as a mathematical integer.
pub open spec fn spec_widen(index: Option<i64>) -> Option<int> {
    match index {
        Some(i) => Some(i as int),
        None => None,
    }
}

/// Averages filtered ratios in batches.
pub struct RatioAverager {
    filter: MedianFilter,
    sum: u128,
    accepted: u32,
    batch: u32,
}

/// What the averager stands for: every ratio it was fed, the sum and number of
/// the filtered ratios of the batch under way, and the batch size.
pub struct AveragerView {
    pub ratios: Seq<u64>,
    pub sum: nat,
    pub accepted: nat,
    pub batch: nat,
}

impl AveragerView {
    /// The averager after a filtered ratio: the batch grows, or is completed
    /// and started afresh.
    pub open spec fn accumulated(self, filtered: u64) -> AveragerView {
        if self.accepted + 1 == self.batch {
            AveragerView { sum: 0, accepted: 0, ..self }
        } else {
            AveragerView { sum: self.sum + filtered as nat, accepted: self.accepted + 1, ..self }
        }
    }

    /// The average that a filtered ratio completes, if it completes a batch.
    pub open spec fn average(self, filtered: u64) -> Option<u64> {
        if self.accepted + 1 == self.batch {
            Some(((self.sum + filtered as nat) / self.batch) as u64)
        } else {
            None
        }
    }

    /// The averager after it was fed `ratio`.
    pub open spec fn fed(self, ratio: u64) -> AveragerView {
        let ratios = self.ratios.push(ratio);
        AveragerView { ratios, ..self }.accumulated(median_of(RATIO_WINDOW as nat, ratios))
    }

    /// The average that `ratio` completes, if it completes a batch.
    pub open spec fn fed_average(self, ratio: u64) -> Option<u64> {
        self.average(median_of(RATIO_WINDOW as nat, self.ratios.push(ratio)))
    }
}

impl View for RatioAverager {
    type V = AveragerView;

    closed spec fn view(&self) -> AveragerView {
        AveragerView {
            ratios: self.filter.samples(),
            sum: self.sum as nat,
            accepted: self.accepted as nat,
            batch: self.batch as nat,
        }
    }
}

impl RatioAverager {
    /// The invariant of the averager: the batch under way is not complete.
    pub closed spec fn wf(&self) -> bool {
        &&& self.filter.wf()
        &&& self.filter.size() == RATIO_WINDOW
        &&& self.accepted < self.batch
        &&& self.sum <= self.accepted * u64::MAX
    }

    /// Creates an averager over batches of `batch` ratios.
    pub fn new(batch: u32) -> (r: RatioAverager)
        requires
            batch > 0,
        ensures
            r.wf(),
            r@ == (AveragerView {
                ratios: Seq::empty(),
                sum: 0,
                accepted: 0,
                batch: batch as nat,
            }),
    {
        RatioAverager { filter: MedianFilter::new(RATIO_WINDOW), sum: 0, accepted: 0, batch }
    }

    /// Adds a filtered ratio to the batch under way. The ratio that completes
    /// a batch gives the average of the batch.
    pub fn accumulate(&mut self, filtered: u64) -> (r: Option<u64>)
        requires
            old(self).wf(),
        ensures
            final(self).wf(),
            final(self)@ == old(self)@.accumulated(filtered),
            r == old(self)@.average(filtered),
    {
        assert(self.accepted * u64::MAX <= 0xffff_ffff * u64::MAX) by (nonlinear_arith)
            requires
                self.accepted <= 0xffff_ffff,
        ;
        let sum: u128 = self.sum + filtered as u128;
        if self.accepted + 1 == self.batch {
            let batch: u128 = self.batch as u128;
            let average: u128 = sum / batch;
            assert(average <= u64::MAX) by (nonlinear_arith)
                requires
                    average == sum / batch,
                    batch > 0,
                    sum <= batch * u64::MAX,
            ;
            self.sum = 0;
            self.accepted = 0;
            Some(average as u64)
        } else {
            let before: u128 = self.sum;
            let count: u32 = self.accepted;
            assert(sum <= (count + 1) * u64::MAX) by (nonlinear_arith)
                requires
                    sum == before + filtered,
                    filtered <= u64::MAX,
                    before <= count * u64::MAX,
            ;
            self.sum = sum;
            self.accepted = count + 1;
            None
        }
    }

    /// Passes `ratio` through the median filter and adds the filter's answer
    /// to the batch under way.
    pub fn feed(&mut self, ratio: u64) -> (r: Option<u64>)
        requires
            old(self).wf(),
        ensures
            final(self).wf(),
            final(self)@ == old(self)@.fed(ratio),
            r == old(self)@.fed_average(ratio),
    {
        let filtered = self.filter.consume(ratio);
        self.accumulate(filtered)
    }
}

/// An averager that has only ever been fed one ratio stays in step with it:
/// fed that ratio again, it completes each batch with that ratio as the
/// average.
pub proof fn lemma_steady_ratio(averager: AveragerView, ratio: u64)
    requires
        averager.accepted < averager.batch,
        averager.sum == averager.accepted * ratio,
        forall|i: int| 0 <= i < averager.ratios.len() ==> averager.ratios[i] == ratio,
    ensures
        averager.fed_average(ratio) == if averager.accepted + 1 == averager.batch {
            Some(ratio)
        } else {
            None
        },
        averager.fed(ratio).accepted < averager.batch,
        averager.fed(ratio).sum == averager.fed(ratio).accepted * ratio,
        forall|i: int|
            0 <= i < averager.fed(ratio).ratios.len() ==> averager.fed(ratio).ratios[i] == ratio,
{
    let ratios = averager.ratios.push(ratio);
    crate::rolling_median::lemma_median_of_constant(RATIO_WINDOW as nat, ratios, ratio);
    let batch = averager.batch as int;
    let count = averager.accepted as int;
    let value = ratio as int;
    if count + 1 == batch {
        assert((count * value + value) / batch == value) by (nonlinear_arith)
            requires
                count + 1 == batch,
                batch > 0,
                value >= 0,
        ;
    } else {
        assert(count * value + value == (count + 1) * value) by (nonlinear_arith);
    }
}

/// Estimates the saturation from the filtered red and infrared channels.
pub struct OxygenEstimator {
    red_deviation: MovingStandardDeviation,
    infrared_deviation: MovingStandardDeviation,
    averager: RatioAverager,
    configuration: OxygenConfiguration,
}

/// What the estimator stands for.
pub struct EstimatorView {
    pub red: MovingView,
    pub infrared: MovingView,
    pub averager: AveragerView,
    pub configuration: OxygenConfiguration,
}

impl EstimatorView {
    /// The red perfusion index after `red`.
    pub open spec fn red_index(self, red: FilteredSample) -> Option<int> {
        spec_perfusion_index(
            self.red.pushed(spec_narrow(red.ac as int)).deviation() as int,
            red.dc as int,
        )
    }

    /// The infrared perfusion index after `infrared`.
    pub open spec fn infrared_index(self, infrared: FilteredSample) -> Option<int> {
        spec_perfusion_index(
            self.infrared.pushed(spec_narrow(infrared.ac as int)).deviation() as int,
            infrared.dc as int,
        )
    }

    /// The ratio that the sample pair contributes, if it counts.
    pub open spec fn ratio(self, red: FilteredSample, infrared: FilteredSample) -> Option<int> {
        spec_ratio(
            self.red_index(red),
            self.infrared_index(infrared),
            self.configuration.red_index_floor as int,
        )
    }

    /// The averaged ratio that the sample pair completes, if any.
    pub open spec fn average(self, red: FilteredSample, infrared: FilteredSample) -> Option<u64> {
        match self.ratio(red, infrared) {
            Some(ratio) => self.averager.fed_average(ratio as u64),
            None => None,
        }
    }

    /// The estimator after the sample pair.
    pub open spec fn pushed(self, red: FilteredSample, infrared: FilteredSample) -> EstimatorView {
        EstimatorView {
            red: self.red.pushed(spec_narrow(red.ac as int)),
            infrared: self.infrared.pushed(spec_narrow(infrared.ac as int)),
            averager: match self.ratio(red, infrared) {
                Some(ratio) => self.averager.fed(ratio as u64),
                None => self.averager,
            },
            configuration: self.configuration,
        }
    }

    /// What the sample pair gives.
    pub open spec fn reading(self, red: FilteredSample, infrared: FilteredSample) -> OxygenReading {
        let average = self.average(red, infrared);
        OxygenReading {
            red_index: match self.red_index(red) {
                Some(index) => Some(index as i64),
                None => None,
            },
            infrared_index: match self.infrared_index(infrared) {
                Some(index) => Some(index as i64),
                None => None,
            },
            ratio: average,
            saturation: match average {
                Some(ratio) => self.configuration.line.published(ratio as int),
                None => None,
            },
        }
    }
}

impl View for OxygenEstimator {
    type V = EstimatorView;

    closed spec fn view(&self) -> EstimatorView {
        EstimatorView {
            red: self.red_deviation@,
            infrared: self.infrared_deviation@,
            averager: self.averager@,
            configuration: self.configuration,
        }
    }
}

/// Limits a sample to what the moving deviation takes.
pub fn narrow(ac: i64) -> (r: i32)
    ensures
        r == spec_narrow(ac as int),
{
    if ac < i32::MIN as i64 {
        i32::MIN
    } else if ac > i32::MAX as i64 {
        i32::MAX
    } else {
        ac as i32
    }
}

impl OxygenEstimator {
    /// The invariant of the estimator: that of each of its parts.
    pub closed spec fn wf(&self) -> bool {
        &&& self.red_deviation.wf()
        &&& self.infrared_deviation.wf()
        &&& self.averager.wf()
        &&& self.averager@.batch == self.configuration.batch
    }

    /// Creates an estimator that has seen no sample.
    pub fn new(configuration: OxygenConfiguration) -> (r: OxygenEstimator)
        requires
            configuration.batch > 0,
        ensures
            r.wf(),
            r@.configuration == configuration,
            r@.red == (MovingView { squares: Seq::empty(), size: DEVIATION_WINDOW as nat }),
            r@.infrared == (MovingView {
                squares: Seq::empty(),
                size: DEVIATION_WINDOW as nat,
            }),
            r@.averager == (AveragerView {
                ratios: Seq::empty(),
                sum: 0,
                accepted: 0,
                batch: configuration.batch as nat,
            }),
    {
        OxygenEstimator {
            red_deviation: MovingStandardDeviation::new(DEVIATION_WINDOW),
            infrared_deviation: MovingStandardDeviation::new(DEVIATION_WINDOW),
            averager: RatioAverager::new(configuration.batch),
            configuration,
        }
    }

    /// Takes one filtered sample of the red and of the infrared channel.
    ///
    /// The moving deviation of each pulsatile part stands for its amplitude
    /// and gives, over the baseline, the perfusion index of the channel. The
    /// ratio of the two indices, where it counts, is median-filtered and
    /// averaged over a batch; the average of a completed batch is mapped to a
    /// saturation, which is withheld unless it lies between 80 % and 100 %.
    pub fn push(&mut self, red: FilteredSample, infrared: FilteredSample) -> (r: OxygenReading)
        requires
            old(self).wf(),
        ensures
            final(self).wf(),
            final(self)@ == old(self)@.pushed(red, infrared),
            r == old(self)@.reading(red, infrared),
    {
        let red_amplitude: u32 = self.red_deviation.push(narrow(red.ac));
        let infrared_amplitude: u32 = self.infrared_deviation.push(narrow(infrared.ac));
        let red_index = perfusion_index(red_amplitude as i64, red.dc);
        let infrared_index = perfusion_index(infrared_amplitude as i64, infrared.dc);
        let ratio = index_ratio(red_index, infrared_index, self.configuration.red_index_floor);
        let average = match ratio {
            Some(ratio) => self.averager.feed(ratio),
            None => None,
        };
        let saturation = match average {
            Some(average) => self.configuration.line.saturation(average),
            None => None,
        };
        OxygenReading { red_index, infrared_index, ratio: average, saturation }
    }
}

} // verus!
