//! The currents that the offset-cancellation converter really delivers.
//!
//! The converter differs from device to device, so each of its codes is
//! measured once with the photodiode disconnected. Afterwards a commanded
//! offset current is looked up by its nearest code.

use vstd::prelude::*;
use crate::quantity::{photocurrent, spec_photocurrent, Current, Resistance, Voltage};

verus! {

/// The number of codes of the offset-cancellation converter.
pub const OFFSET_CODES: usize = 31;

/// The current, in picoamperes, at either end of the converter's range.
pub const OFFSET_RANGE: i64 = 7_000_000;

/// The current, in picoamperes, that the converter is built to deliver at
/// `code`: fifteen steps from the lower end of the range to zero, fifteen more
/// to the upper end.
pub open spec fn nominal(code: int) -> int {
    (7_000_000 * code) / 15 - 7_000_000
}

/// The code whose nominal current is nearest to `picoamperes`. Currents below
/// the range belong to the first code.
pub open spec fn nearest_code(picoamperes: int) -> int {
    if picoamperes <= -7_000_000 {
        0
    } else {
        ((picoamperes + 7_000_000) * 15 + 3_500_000) / 7_000_000
    }
}

/// Within the converter's range the nearest code is a code, and its nominal
/// current is no further than half a step away.
pub proof fn lemma_nearest_code(picoamperes: int)
    requires
        -7_000_000 <= picoamperes <= 7_000_000,
    ensures
        0 <= nearest_code(picoamperes) < OFFSET_CODES,
        -233_334 <= nominal(nearest_code(picoamperes)) - picoamperes <= 233_334,
{
}

/// Each code is the nearest code of its own nominal current.
pub proof fn lemma_nearest_code_of_nominal(code: int)
    requires
        0 <= code < OFFSET_CODES,
    ensures
        nearest_code(nominal(code)) == code,
{
}

/// The measured current of each code of the converter.
pub struct OffsetCurrents {
    currents: Vec<Current>,
}

impl View for OffsetCurrents {
    type V = Seq<int>;

    closed spec fn view(&self) -> Seq<int> {
        Seq::new(self.currents@.len(), |i: int| self.currents@[i].picoamperes as int)
    }
}

impl OffsetCurrents {
    /// The table holds one current per code.
    pub closed spec fn wf(&self) -> bool {
        self.currents@.len() == OFFSET_CODES
    }

    /// A well-formed table has one entry per code.
    pub proof fn lemma_wf(&self)
        requires
            self.wf(),
        ensures
            self@.len() == OFFSET_CODES,
    {
    }

    /// The current that the converter is built to deliver at `code`.
    pub fn nominal_current(code: usize) -> (r: Current)
        requires
            code < OFFSET_CODES,
        ensures
            r.picoamperes == nominal(code as int),
    {
        Current { picoamperes: (7_000_000 * (code as i64)) / 15 - 7_000_000 }
    }

    /// Creates a table that holds the nominal current of each code.
    pub fn new() -> (r: OffsetCurrents)
        ensures
            r.wf(),
            r@.len() == OFFSET_CODES,
            forall|code: int| 0 <= code < OFFSET_CODES ==> r@[code] == nominal(code),
    {
        let mut currents: Vec<Current> = Vec::new();
        let mut code: usize = 0;
        while code < OFFSET_CODES
            invariant
                code <= OFFSET_CODES,
                currents@.len() == code,
                forall|i: int| 0 <= i < code ==> currents@[i].picoamperes == nominal(i),
            decreases OFFSET_CODES - code,
        {
            currents.push(Self::nominal_current(code));
            code += 1;
        }
        OffsetCurrents { currents }
    }

    /// The code that a commanded offset current selects.
    pub fn code_of(offset: Current) -> (r: usize)
        requires
            nearest_code(offset.picoamperes as int) < OFFSET_CODES,
        ensures
            r == nearest_code(offset.picoamperes as int),
    {
        if offset.picoamperes <= -7_000_000 {
            0
        } else {
            (((offset.picoamperes + 7_000_000) * 15 + 3_500_000) / 7_000_000) as usize
        }
    }

    /// Maps a commanded offset current to the current measured for its nearest
    /// code.
    pub fn accurate(&self, offset: Current) -> (r: Current)
        requires
            self.wf(),
            nearest_code(offset.picoamperes as int) < OFFSET_CODES,
        ensures
            r.picoamperes == self@[nearest_code(offset.picoamperes as int)],
    {
        let code = Self::code_of(offset);
        self.currents[code]
    }

    /// Records the current measured at `code`, from the voltage read with the
    /// photodiode disconnected.
    pub fn record(&mut self, code: usize, voltage: Voltage, resistor: Resistance)
        requires
            old(self).wf(),
            code < OFFSET_CODES,
            resistor.ohms > 0,
        ensures
            final(self).wf(),
            final(self)@ == old(self)@.update(
                code as int,
                spec_photocurrent(voltage.microvolts as int, resistor.ohms as int),
            ),
    {
        self.currents.set(code, photocurrent(voltage, resistor));
        proof {
            assert(self@ =~= old(self)@.update(
                code as int,
                spec_photocurrent(voltage.microvolts as int, resistor.ohms as int),
            ));
        }
    }

    /// Fills the table from a sweep over all codes: `readings` holds, code by
    /// code, the voltage read once the converter had settled.
    pub fn measure(&mut self, readings: &Vec<Voltage>, resistor: Resistance)
        requires
            old(self).wf(),
            readings@.len() == OFFSET_CODES,
            resistor.ohms > 0,
        ensures
            final(self).wf(),
            final(self)@.len() == OFFSET_CODES,
            forall|code: int|
                0 <= code < OFFSET_CODES ==> final(self)@[code] == spec_photocurrent(
                    readings@[code].microvolts as int,
                    resistor.ohms as int,
                ),
    {
        let mut code: usize = 0;
        while code < OFFSET_CODES
            invariant
                self.wf(),
                code <= OFFSET_CODES,
                readings@.len() == OFFSET_CODES,
                resistor.ohms > 0,
                forall|i: int|
                    0 <= i < code ==> self@[i] == spec_photocurrent(
                        readings@[i].microvolts as int,
                        resistor.ohms as int,
                    ),
            decreases OFFSET_CODES - code,
        {
            self.record(code, readings[code], resistor);
            code += 1;
        }
    }
}

} // verus!
