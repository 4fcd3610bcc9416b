//! Closed-loop control of one channel's LED current and offset-cancellation
//! current.
//!
//! The controller never touches the front-end itself. It is told what the
//! front-end reports and answers with the current to command; the caller
//! applies that command and reports back what the front-end made of it.

use vstd::prelude::*;
use crate::quantity::{clamp, clamp_to, spec_photocurrent, trunc_div, Current, Resistance, Voltage};

verus! {

/// What the front-end reports of one channel before a correction.
#[derive(Clone, Copy, Debug, PartialEq, Eq, Structural)]
pub struct Actuators {
    pub led_current: Current,
    pub offset_current: Current,
    pub resistor: Resistance,
}

/// How a commanded offset current relates to its bounds.
#[derive(Clone, Copy, Debug, PartialEq, Eq, Structural)]
pub enum Saturation {
    /// The requested current was commanded as it was.
    Within,
    /// The requested current was below the minimum, which was commanded.
    TooLow,
    /// The requested current was above the maximum, which was commanded.
    TooHigh,
}

/// One of the parameters of a calibrator, as the notification layer names it.
#[derive(Clone, Copy, Debug, PartialEq, Eq, Structural)]
pub enum Parameter {
    LedCurrentMin,
    LedCurrentMax,
    OffsetCurrentMin,
    OffsetCurrentMax,
    OffsetCurrentSetPoint,
    AdcSetPoint,
    AdcWorkingThreshold,
    Alpha,
}

/// The offset current to command after the LED current has been applied.
#[derive(Clone, Copy, Debug, PartialEq, Eq, Structural)]
pub struct OffsetCorrection {
    pub command: Current,
    pub saturation: Saturation,
}

/// The parameters of one channel's controller.
#[derive(Clone, Copy, Debug, PartialEq, Eq, Structural)]
pub struct Calibrator {
    pub led_current_min: Current,
    pub led_current_max: Current,
    pub offset_current_min: Current,
    pub offset_current_max: Current,
    /// The skin reflectance: LED current over photodiode current.
    pub alpha: u32,
    /// The offset current aimed at. A negative offset turns the LED on.
    pub offset_current_set_point: Current,
    pub adc_set_point: Voltage,
    /// Half the width of the working window around the set point.
    pub adc_working_threshold: Voltage,
}

impl Calibrator {
    /// A calibrator is usable when its reflectance is not zero.
    pub open spec fn wf(self) -> bool {
        self.alpha > 0
    }

    /// Whether `sample` lies in the working window around the set point.
    pub open spec fn in_window(self, sample: Voltage) -> bool {
        self.adc_set_point.microvolts - self.adc_working_threshold.microvolts
            <= sample.microvolts <= self.adc_set_point.microvolts
            + self.adc_working_threshold.microvolts
    }

    /// The photocurrent, in picoamperes, that would bring `sample` to the set
    /// point.
    pub open spec fn error(self, sample: Voltage, resistor: Resistance) -> int {
        spec_photocurrent(
            self.adc_set_point.microvolts - sample.microvolts,
            resistor.ohms as int,
        )
    }

    /// The LED current asked for, before it is limited to its bounds.
    pub open spec fn requested_led_current(self, sample: Voltage, actuators: Actuators) -> int {
        actuators.led_current.picoamperes + self.alpha * (self.error(sample, actuators.resistor)
            - self.offset_current_set_point.picoamperes + actuators.offset_current.picoamperes)
    }

    /// The LED current to command: the one asked for, limited to its bounds.
    pub open spec fn led_command(self, sample: Voltage, actuators: Actuators) -> int {
        clamp(
            self.requested_led_current(sample, actuators),
            self.led_current_min.picoamperes as int,
            self.led_current_max.picoamperes as int,
        )
    }

    /// The offset current asked for once the front-end has applied
    /// `applied_led_current`: the set point plus what the LED left uncorrected.
    pub open spec fn requested_offset_current(
        self,
        sample: Voltage,
        actuators: Actuators,
        applied_led_current: Current,
    ) -> int {
        self.offset_current_set_point.picoamperes + trunc_div(
            self.requested_led_current(sample, actuators) - applied_led_current.picoamperes,
            self.alpha as int,
        )
    }

    /// The offset current to command: the one asked for, limited to its bounds.
    pub open spec fn offset_command(
        self,
        sample: Voltage,
        actuators: Actuators,
        applied_led_current: Current,
    ) -> int {
        clamp(
            self.requested_offset_current(sample, actuators, applied_led_current),
            self.offset_current_min.picoamperes as int,
            self.offset_current_max.picoamperes as int,
        )
    }

    /// How the offset current asked for relates to its bounds.
    pub open spec fn offset_saturation(
        self,
        sample: Voltage,
        actuators: Actuators,
        applied_led_current: Current,
    ) -> Saturation {
        let requested = self.requested_offset_current(sample, actuators, applied_led_current);
        if requested < self.offset_current_min.picoamperes {
            Saturation::TooLow
        } else if requested > self.offset_current_max.picoamperes {
            Saturation::TooHigh
        } else {
            Saturation::Within
        }
    }

    /// Creates a calibrator with the given reflectance and the default bounds,
    /// set points and working window.
    pub fn new(alpha: u32) -> (r: Calibrator)
        requires
            alpha > 0,
        ensures
            r.wf(),
            r.alpha == alpha,
            r.led_current_min.picoamperes == 0,
            r.led_current_max.picoamperes == 50_000_000_000,
            r.offset_current_min.picoamperes == -7_000_000,
            r.offset_current_max.picoamperes == 7_000_000,
            r.offset_current_set_point.picoamperes == -6_500_000,
            r.adc_set_point.microvolts == 500_000,
            r.adc_working_threshold.microvolts == 300_000,
    {
        Calibrator {
            led_current_min: Current { picoamperes: 0 },
            led_current_max: Current { picoamperes: 50_000_000_000 },
            offset_current_min: Current { picoamperes: -7_000_000 },
            offset_current_max: Current { picoamperes: 7_000_000 },
            alpha,
            offset_current_set_point: Current { picoamperes: -6_500_000 },
            adc_set_point: Voltage { microvolts: 500_000 },
            adc_working_threshold: Voltage { microvolts: 300_000 },
        }
    }

    /// The LED current asked for, as a wide integer.
    fn led_request(&self, sample: Voltage, actuators: Actuators) -> (r: i128)
        requires
            actuators.resistor.ohms > 0,
        ensures
            r == self.requested_led_current(sample, actuators),
            -0x10_0000_0000_0000_0000_0000_0000 <= r <= 0x10_0000_0000_0000_0000_0000_0000,
    {
        let difference: i64 = self.adc_set_point.microvolts as i64 - sample.microvolts as i64;
        let numerator: i64 = difference * 1_000_000;
        let denominator: i64 = 2 * (actuators.resistor.ohms as i64);
        let error: i64 = numerator / denominator;
        proof {
            crate::quantity::lemma_trunc_div_bounds(numerator as int, denominator as int);
        }
        let residual: i128 = error as i128 - self.offset_current_set_point.picoamperes as i128
            + actuators.offset_current.picoamperes as i128;
        let alpha: i128 = self.alpha as i128;
        assert(-0x4_0000_0000_0000_0000_0000_0000 <= alpha * residual
            <= 0x4_0000_0000_0000_0000_0000_0000) by (nonlinear_arith)
            requires
                0 <= alpha <= 0xffff_ffff,
                -0x4_0000_0000_0000_0000 <= residual <= 0x4_0000_0000_0000_0000,
        ;
        assert(alpha * residual == self.alpha * (self.error(sample, actuators.resistor)
            - self.offset_current_set_point.picoamperes
            + actuators.offset_current.picoamperes));
        actuators.led_current.picoamperes as i128 + alpha * residual
    }

    /// Tells whether `sample` lies outside the working window, so that the
    /// channel needs a correction. Only then does the front-end have to be
    /// asked for its currents.
    pub fn needs_correction(&self, sample: Voltage) -> (r: bool)
        ensures
            r == !self.in_window(sample),
    {
        let set_point: i64 = self.adc_set_point.microvolts as i64;
        let threshold: i64 = self.adc_working_threshold.microvolts as i64;
        let value: i64 = sample.microvolts as i64;
        value < set_point - threshold || value > set_point + threshold
    }

    /// Decides whether the channel needs a correction and, if so, which LED
    /// current to command.
    ///
    /// Nothing is to be done while the sample lies inside the working window.
    /// Outside it, the LED current absorbs the bulk of the error, scaled by the
    /// reflectance and limited to its bounds.
    pub fn calibrate_dc(&self, sample: Voltage, actuators: Actuators) -> (r: Option<Current>)
        requires
            actuators.resistor.ohms > 0,
        ensures
            r.is_none() <==> self.in_window(sample),
            r matches Some(command) ==> command.picoamperes == self.led_command(
                sample,
                actuators,
            ),
    {
        if self.needs_correction(sample) {
            let requested: i128 = self.led_request(sample, actuators);
            Some(clamp_to(requested, self.led_current_min, self.led_current_max))
        } else {
            None
        }
    }

    /// The offset current to command once the front-end has reported the LED
    /// current that it applied: the set point plus the part of the request that
    /// the LED did not take, limited to its bounds.
    pub fn offset_correction(
        &self,
        sample: Voltage,
        actuators: Actuators,
        applied_led_current: Current,
    ) -> (r: OffsetCorrection)
        requires
            self.wf(),
            actuators.resistor.ohms > 0,
        ensures
            r.command.picoamperes == self.offset_command(sample, actuators, applied_led_current),
            r.saturation == self.offset_saturation(sample, actuators, applied_led_current),
    {
        let requested_led: i128 = self.led_request(sample, actuators);
        let unapplied: i128 = requested_led - applied_led_current.picoamperes as i128;
        let alpha: i128 = self.alpha as i128;
        let share: i128 = unapplied / alpha;
        proof {
            crate::quantity::lemma_trunc_div_bounds(unapplied as int, alpha as int);
        }
        let requested: i128 = self.offset_current_set_point.picoamperes as i128 + share;
        let saturation = if requested < self.offset_current_min.picoamperes as i128 {
            Saturation::TooLow
        } else if requested > self.offset_current_max.picoamperes as i128 {
            Saturation::TooHigh
        } else {
            Saturation::Within
        };
        OffsetCorrection {
            command: clamp_to(requested, self.offset_current_min, self.offset_current_max),
            saturation,
        }
    }

    /// The value of `parameter`: picoamperes for a current, microvolts for a
    /// voltage, the bare number for the reflectance.
    pub open spec fn value_of(self, parameter: Parameter) -> int {
        match parameter {
            Parameter::LedCurrentMin => self.led_current_min.picoamperes as int,
            Parameter::LedCurrentMax => self.led_current_max.picoamperes as int,
            Parameter::OffsetCurrentMin => self.offset_current_min.picoamperes as int,
            Parameter::OffsetCurrentMax => self.offset_current_max.picoamperes as int,
            Parameter::OffsetCurrentSetPoint => self.offset_current_set_point.picoamperes as int,
            Parameter::AdcSetPoint => self.adc_set_point.microvolts as int,
            Parameter::AdcWorkingThreshold => self.adc_working_threshold.microvolts as int,
            Parameter::Alpha => self.alpha as int,
        }
    }

    /// Whether `value` is one that `parameter` can take: any current, a
    /// voltage that fits its type, a reflectance that is positive and fits.
    pub open spec fn admits(parameter: Parameter, value: i64) -> bool {
        match parameter {
            Parameter::AdcSetPoint | Parameter::AdcWorkingThreshold => i32::MIN <= value
                <= i32::MAX,
            Parameter::Alpha => 0 < value <= u32::MAX,
            _ => true,
        }
    }

    /// The calibrator with `parameter` at `value`.
    pub open spec fn with(self, parameter: Parameter, value: i64) -> Calibrator {
        match parameter {
            Parameter::LedCurrentMin => Calibrator {
                led_current_min: Current { picoamperes: value },
                ..self
            },
            Parameter::LedCurrentMax => Calibrator {
                led_current_max: Current { picoamperes: value },
                ..self
            },
            Parameter::OffsetCurrentMin => Calibrator {
                offset_current_min: Current { picoamperes: value },
                ..self
            },
            Parameter::OffsetCurrentMax => Calibrator {
                offset_current_max: Current { picoamperes: value },
                ..self
            },
            Parameter::OffsetCurrentSetPoint => Calibrator {
                offset_current_set_point: Current { picoamperes: value },
                ..self
            },
            Parameter::AdcSetPoint => Calibrator {
                adc_set_point: Voltage { microvolts: value as i32 },
                ..self
            },
            Parameter::AdcWorkingThreshold => Calibrator {
                adc_working_threshold: Voltage { microvolts: value as i32 },
                ..self
            },
            Parameter::Alpha => Calibrator { alpha: value as u32, ..self },
        }
    }

    /// Reads one parameter.
    pub fn get(&self, parameter: Parameter) -> (r: i64)
        ensures
            r == self.value_of(parameter),
    {
        match parameter {
            Parameter::LedCurrentMin => self.led_current_min.picoamperes,
            Parameter::LedCurrentMax => self.led_current_max.picoamperes,
            Parameter::OffsetCurrentMin => self.offset_current_min.picoamperes,
            Parameter::OffsetCurrentMax => self.offset_current_max.picoamperes,
            Parameter::OffsetCurrentSetPoint => self.offset_current_set_point.picoamperes,
            Parameter::AdcSetPoint => self.adc_set_point.microvolts as i64,
            Parameter::AdcWorkingThreshold => self.adc_working_threshold.microvolts as i64,
            Parameter::Alpha => self.alpha as i64,
        }
    }

    /// Writes one parameter while the controller keeps running. A value that
    /// the parameter cannot take is refused and leaves the calibrator as it
    /// was.
    pub fn set(&mut self, parameter: Parameter, value: i64) -> (accepted: bool)
        ensures
            accepted == Self::admits(parameter, value),
            accepted ==> *final(self) == old(self).with(parameter, value),
            accepted ==> final(self).value_of(parameter) == value,
            !accepted ==> *final(self) == *old(self),
            old(self).wf() ==> final(self).wf(),
    {
        match parameter {
            Parameter::LedCurrentMin => {
                self.led_current_min = Current { picoamperes: value };
                true
            },
            Parameter::LedCurrentMax => {
                self.led_current_max = Current { picoamperes: value };
                true
            },
            Parameter::OffsetCurrentMin => {
                self.offset_current_min = Current { picoamperes: value };
                true
            },
            Parameter::OffsetCurrentMax => {
                self.offset_current_max = Current { picoamperes: value };
                true
            },
            Parameter::OffsetCurrentSetPoint => {
                self.offset_current_set_point = Current { picoamperes: value };
                true
            },
            Parameter::AdcSetPoint => {
                if value >= i32::MIN as i64 && value <= i32::MAX as i64 {
                    self.adc_set_point = Voltage { microvolts: value as i32 };
                    true
                } else {
                    false
                }
            },
            Parameter::AdcWorkingThreshold => {
                if value >= i32::MIN as i64 && value <= i32::MAX as i64 {
                    self.adc_working_threshold = Voltage { microvolts: value as i32 };
                    true
                } else {
                    false
                }
            },
            Parameter::Alpha => {
                if value > 0 && value <= u32::MAX as i64 {
                    self.alpha = value as u32;
                    true
                } else {
                    false
                }
            },
        }
    }

    /// Gets the minimum LED current.
    pub fn led_current_min(&self) -> (r: Current)
        ensures
            r == self.led_current_min,
    {
        self.led_current_min
    }

    /// Gets the maximum LED current.
    pub fn led_current_max(&self) -> (r: Current)
        ensures
            r == self.led_current_max,
    {
        self.led_current_max
    }

    /// Gets the minimum offset current.
    pub fn offset_current_min(&self) -> (r: Current)
        ensures
            r == self.offset_current_min,
    {
        self.offset_current_min
    }

    /// Gets the maximum offset current.
    pub fn offset_current_max(&self) -> (r: Current)
        ensures
            r == self.offset_current_max,
    {
        self.offset_current_max
    }

    /// Gets the skin reflectance parameter alpha.
    pub fn alpha(&self) -> (r: u32)
        ensures
            r == self.alpha,
    {
        self.alpha
    }

    /// Gets the offset current set point.
    pub fn offset_current_set_point(&self) -> (r: Current)
        ensures
            r == self.offset_current_set_point,
    {
        self.offset_current_set_point
    }

    /// Gets the set point of the converter.
    pub fn adc_set_point(&self) -> (r: Voltage)
        ensures
            r == self.adc_set_point,
    {
        self.adc_set_point
    }

    /// Gets the working threshold around the set point.
    pub fn adc_working_threshold(&self) -> (r: Voltage)
        ensures
            r == self.adc_working_threshold,
    {
        self.adc_working_threshold
    }

    /// Replaces the reflectance. Zero is refused and leaves the calibrator as
    /// it was.
    pub fn set_alpha(&mut self, alpha: u32) -> (accepted: bool)
        ensures
            accepted <==> alpha > 0,
            accepted ==> *final(self) == (Calibrator { alpha, ..*old(self) }),
            !accepted ==> *final(self) == *old(self),
            old(self).wf() ==> final(self).wf(),
    {
        if alpha > 0 {
            self.alpha = alpha;
            true
        } else {
            false
        }
    }
}

/// A sample whose distance from the set point is at most the working threshold
/// asks for no correction, and any other sample asks for one.
pub proof fn lemma_window_is_distance(calibrator: Calibrator, sample: Voltage)
    ensures
        calibrator.in_window(sample) <==> vstd::math::abs(
            sample.microvolts - calibrator.adc_set_point.microvolts,
        ) <= calibrator.adc_working_threshold.microvolts,
{
}

/// With ordered bounds, both commands lie within their bounds, and a request
/// beyond a bound is answered with that bound.
pub proof fn lemma_commands_within_bounds(
    calibrator: Calibrator,
    sample: Voltage,
    actuators: Actuators,
    applied_led_current: Current,
)
    requires
        calibrator.led_current_min.picoamperes <= calibrator.led_current_max.picoamperes,
        calibrator.offset_current_min.picoamperes <= calibrator.offset_current_max.picoamperes,
    ensures
        calibrator.led_current_min.picoamperes <= calibrator.led_command(sample, actuators)
            <= calibrator.led_current_max.picoamperes,
        calibrator.requested_led_current(sample, actuators)
            < calibrator.led_current_min.picoamperes ==> calibrator.led_command(
            sample,
            actuators,
        ) == calibrator.led_current_min.picoamperes,
        calibrator.requested_led_current(sample, actuators)
            > calibrator.led_current_max.picoamperes ==> calibrator.led_command(
            sample,
            actuators,
        ) == calibrator.led_current_max.picoamperes,
        calibrator.offset_current_min.picoamperes <= calibrator.offset_command(
            sample,
            actuators,
            applied_led_current,
        ) <= calibrator.offset_current_max.picoamperes,
        calibrator.requested_offset_current(sample, actuators, applied_led_current)
            < calibrator.offset_current_min.picoamperes ==> calibrator.offset_command(
            sample,
            actuators,
            applied_led_current,
        ) == calibrator.offset_current_min.picoamperes,
        calibrator.requested_offset_current(sample, actuators, applied_led_current)
            > calibrator.offset_current_max.picoamperes ==> calibrator.offset_command(
            sample,
            actuators,
            applied_led_current,
        ) == calibrator.offset_current_max.picoamperes,
{
}


/// The midpoint of two currents, rounded towards zero.
pub open spec fn midpoint(a: Current, b: Current) -> int {
    trunc_div(a.picoamperes + b.picoamperes, 2)
}

/// One step of a search by bisection for the current at which a reading
/// reaches its target: the bound on the side of the answer stays, the other
/// moves to the midpoint tried, and the next midpoint is taken.
pub fn bisection(a: &mut Current, b: &mut Current, c: &mut Current, is_f_greater: bool)
    ensures
        *final(a) == if is_f_greater {
            *old(c)
        } else {
            *old(a)
        },
        *final(b) == if is_f_greater {
            *old(b)
        } else {
            *old(c)
        },
        final(c).picoamperes == midpoint(*final(a), *final(b)),
{
    if is_f_greater {
        *a = *c;
    } else {
        *b = *c;
    }
    let sum: i128 = a.picoamperes as i128 + b.picoamperes as i128;
    let half: i128 = sum / 2;
    proof {
        crate::quantity::lemma_trunc_div_bounds(sum as int, 2);
    }
    *c = Current { picoamperes: half as i64 };
}

/// The midpoint of two ordered bounds lies between them, so a step of the
/// search never leaves the interval it started from.
pub proof fn lemma_midpoint_within(a: Current, b: Current)
    requires
        a.picoamperes <= b.picoamperes,
    ensures
        a.picoamperes <= midpoint(a, b) <= b.picoamperes,
{
}

} // verus!
