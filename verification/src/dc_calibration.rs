//! A one-off search for the gain and the LED currents at which each channel
//! reads four fifths of the converter's range.
//!
//! First the resistors of the transimpedance stages are raised, with the LEDs
//! at full current, until every channel reads enough. Then each LED current is
//! found by bisection. Both searches are steps from what was read to what to
//! set next; whoever drives the front-end runs them in a loop.

use vstd::prelude::*;
use crate::calibration::{bisection, lemma_midpoint_within, midpoint};
use crate::data_sending::RawData;
use crate::quantity::{Current, Resistance, Voltage};

verus! {

/// The number of resistors that a transimpedance stage offers.
pub const RESISTOR_STEPS: usize = 8;

/// The largest LED current, in picoamperes: 100 mA.
pub const CURRENT_MAX: i64 = 100_000_000_000;

/// The width, in picoamperes, below which a search for a current ends: 0.8 mA.
pub const CURRENT_RESOLUTION: i64 = 800_000_000;

/// The reading, in microvolts, that every channel is brought to: four fifths
/// of one volt.
pub const VOLTAGE_TARGET: i32 = 800_000;

/// The resistance, in ohms, of the resistor at `step`, from the smallest up.
pub open spec fn spec_resistor(step: int) -> int {
    if step == 0 {
        10_000
    } else if step == 1 {
        25_000
    } else if step == 2 {
        50_000
    } else if step == 3 {
        100_000
    } else if step == 4 {
        250_000
    } else if step == 5 {
        500_000
    } else if step == 6 {
        1_000_000
    } else {
        2_000_000
    }
}

/// The resistor at `step`, from the smallest up; none from eight on.
pub fn resistor(step: usize) -> (r: Option<Resistance>)
    ensures
        r.is_some() <==> step < RESISTOR_STEPS,
        r matches Some(resistance) ==> resistance.ohms == spec_resistor(step as int),
{
    if step >= 8 {
        return None;
    }
    let ohms: u32 = if step == 0 {
        10_000
    } else if step == 1 {
        25_000
    } else if step == 2 {
        50_000
    } else if step == 3 {
        100_000
    } else if step == 4 {
        250_000
    } else if step == 5 {
        500_000
    } else if step == 6 {
        1_000_000
    } else {
        2_000_000
    };
    Some(Resistance { ohms })
}

/// Each resistor is larger than the one before it.
pub proof fn lemma_resistors_increase(step: int)
    requires
        0 <= step < RESISTOR_STEPS - 1,
    ensures
        0 < spec_resistor(step) < spec_resistor(step + 1),
{
}

/// The resistors of the two transimpedance stages.
#[derive(Clone, Copy, Debug, PartialEq, Eq, Structural)]
pub struct Resistors {
    /// The stage of LED 1.
    pub resistor1: Resistance,
    /// The stage that LED 2 and LED 3 share.
    pub resistor2: Resistance,
}

impl Resistors {
    /// Whether every LED reads at least `target`.
    pub open spec fn all_reach(sample: RawData, target: Voltage) -> bool {
        &&& sample.led1.microvolts >= target.microvolts
        &&& sample.led2.microvolts >= target.microvolts
        &&& sample.led3.microvolts >= target.microvolts
    }

    /// The resistors after `sample` was read with them: a stage whose LED
    /// reads less than `target` goes on to `candidate`.
    pub open spec fn raised(
        self,
        candidate: Resistance,
        sample: RawData,
        target: Voltage,
    ) -> Resistors {
        Resistors {
            resistor1: if sample.led1.microvolts < target.microvolts {
                candidate
            } else {
                self.resistor1
            },
            resistor2: if sample.led2.microvolts < target.microvolts || sample.led3.microvolts
                < target.microvolts {
                candidate
            } else {
                self.resistor2
            },
        }
    }

    /// Takes one step of the search for the resistors. Returns whether the
    /// search is over: every LED reads enough, and the resistors stay.
    pub fn raise(&mut self, candidate: Resistance, sample: RawData, target: Voltage) -> (done: bool)
        ensures
            done == Self::all_reach(sample, target),
            *final(self) == old(self).raised(candidate, sample, target),
            done ==> *final(self) == *old(self),
    {
        if sample.led1.microvolts < target.microvolts {
            self.resistor1 = candidate;
        }
        if sample.led2.microvolts < target.microvolts || sample.led3.microvolts
            < target.microvolts {
            self.resistor2 = candidate;
        }
        sample.led1.microvolts >= target.microvolts && sample.led2.microvolts
            >= target.microvolts && sample.led3.microvolts >= target.microvolts
    }
}

/// A search by bisection for the current of one LED.
#[derive(Clone, Copy, Debug, PartialEq, Eq, Structural)]
pub struct CurrentSearch {
    pub lower: Current,
    pub upper: Current,
    /// The current to try next.
    pub middle: Current,
}

impl CurrentSearch {
    /// The bounds are ordered, and the current to try is their midpoint.
    pub open spec fn wf(self) -> bool {
        &&& self.lower.picoamperes <= self.upper.picoamperes
        &&& self.middle.picoamperes == midpoint(self.lower, self.upper)
    }

    /// The distance between the bounds.
    pub open spec fn width(self) -> int {
        self.upper.picoamperes - self.lower.picoamperes
    }

    /// Whether the search goes on: the bounds are further apart than the
    /// resolution.
    pub open spec fn open(self) -> bool {
        self.width() > CURRENT_RESOLUTION
    }

    /// The search after a reading at the current tried: a reading that is too
    /// low raises the lower bound to it, any other lowers the upper bound to
    /// it. A search that is over stays as it is.
    pub open spec fn stepped(self, too_low: bool) -> CurrentSearch {
        if !self.open() {
            self
        } else if too_low {
            CurrentSearch {
                lower: self.middle,
                upper: self.upper,
                middle: Current {
                    picoamperes: midpoint(self.middle, self.upper) as i64,
                },
            }
        } else {
            CurrentSearch {
                lower: self.lower,
                upper: self.middle,
                middle: Current {
                    picoamperes: midpoint(self.lower, self.middle) as i64,
                },
            }
        }
    }

    /// The search between zero and `maximum` before its first step.
    pub open spec fn started(maximum: Current) -> CurrentSearch {
        CurrentSearch {
            lower: Current { picoamperes: 0 },
            upper: maximum,
            middle: Current { picoamperes: (maximum.picoamperes / 2) as i64 },
        }
    }

    /// Starts a search between zero and `maximum`.
    pub fn new(maximum: Current) -> (r: CurrentSearch)
        requires
            maximum.picoamperes >= 0,
        ensures
            r.wf(),
            r == Self::started(maximum),
            r.lower.picoamperes == 0,
            r.upper == maximum,
    {
        CurrentSearch {
            lower: Current { picoamperes: 0 },
            upper: maximum,
            middle: Current { picoamperes: maximum.picoamperes / 2 },
        }
    }

    /// Tells whether the search goes on.
    pub fn is_open(&self) -> (r: bool)
        ensures
            r == self.open(),
    {
        self.upper.picoamperes as i128 - self.lower.picoamperes as i128 > CURRENT_RESOLUTION as i128
    }

    /// Takes one step of the search, given whether the reading at the current
    /// tried was below its target. Returns the current to try next.
    pub fn step(&mut self, too_low: bool) -> (r: Current)
        ensures
            *final(self) == old(self).stepped(too_low),
            r == final(self).middle,
    {
        if self.is_open() {
            let mut lower = self.lower;
            let mut upper = self.upper;
            let mut middle = self.middle;
            bisection(&mut lower, &mut upper, &mut middle, too_low);
            proof {
                crate::quantity::lemma_trunc_div_bounds(
                    lower.picoamperes + upper.picoamperes,
                    2,
                );
            }
            self.lower = lower;
            self.upper = upper;
            self.middle = middle;
        }
        self.middle
    }
}

/// A step of an open search keeps the bounds ordered and inside the bounds
/// before it, and leaves them at most half as far apart, rounded up: the
/// search ends.
pub proof fn lemma_search_narrows(search: CurrentSearch, too_low: bool)
    requires
        search.wf(),
        search.open(),
    ensures
        search.stepped(too_low).wf(),
        search.lower.picoamperes <= search.stepped(too_low).lower.picoamperes,
        search.stepped(too_low).upper.picoamperes <= search.upper.picoamperes,
        2 * search.stepped(too_low).width() <= search.width() + 1,
        search.stepped(too_low).width() < search.width(),
{
    lemma_midpoint_within(search.lower, search.upper);
    lemma_midpoint_within(search.middle, search.upper);
    lemma_midpoint_within(search.lower, search.middle);
}

/// A step of an open search whose bounds are an even distance apart halves
/// that distance exactly, whichever way it goes.
pub proof fn lemma_search_halves(search: CurrentSearch, too_low: bool)
    requires
        search.wf(),
        search.open(),
        search.lower.picoamperes >= 0,
        search.width() % 2 == 0,
    ensures
        search.stepped(too_low).wf(),
        search.stepped(too_low).lower.picoamperes >= 0,
        search.stepped(too_low).width() == search.width() / 2,
{
    lemma_search_narrows(search, too_low);
}

/// The search between zero and 100 mA ends after seven steps, whatever is
/// read on the way, with its bounds 0.78125 mA apart; it goes on until then.
pub proof fn lemma_search_takes_seven_steps(
    a: bool,
    b: bool,
    c: bool,
    d: bool,
    e: bool,
    f: bool,
    g: bool,
)
    ensures
        ({
            let s0 = CurrentSearch::started(Current { picoamperes: CURRENT_MAX });
            let s1 = s0.stepped(a);
            let s2 = s1.stepped(b);
            let s3 = s2.stepped(c);
            let s4 = s3.stepped(d);
            let s5 = s4.stepped(e);
            let s6 = s5.stepped(f);
            let s7 = s6.stepped(g);
            &&& s0.open() && s1.open() && s2.open() && s3.open()
            &&& s4.open() && s5.open() && s6.open()
            &&& !s7.open()
            &&& s7.width() == 781_250_000
            &&& s7.wf()
        }),
{
    let s0 = CurrentSearch::started(Current { picoamperes: CURRENT_MAX });
    assert(s0.wf() && s0.width() == 100_000_000_000);
    lemma_search_halves(s0, a);
    let s1 = s0.stepped(a);
    assert(s1.width() == 50_000_000_000);
    lemma_search_halves(s1, b);
    let s2 = s1.stepped(b);
    assert(s2.width() == 25_000_000_000);
    lemma_search_halves(s2, c);
    let s3 = s2.stepped(c);
    assert(s3.width() == 12_500_000_000);
    lemma_search_halves(s3, d);
    let s4 = s3.stepped(d);
    assert(s4.width() == 6_250_000_000);
    lemma_search_halves(s4, e);
    let s5 = s4.stepped(e);
    assert(s5.width() == 3_125_000_000);
    lemma_search_halves(s5, f);
    let s6 = s5.stepped(f);
    assert(s6.width() == 1_562_500_000);
    lemma_search_halves(s6, g);
}

} // verus!
