//! The sensor's linear transfer functions, kept as exact rationals.
//!
//! Both conversions are linear maps whose coefficients are integers, so each
//! result is returned as an exact numerator/denominator pair instead of an
//! inexact machine float; the host divides when it wants a float.  The
//! pressure formula is
//! `(o_max - o_min) / (p_max - p_min) * (raw - p_min) + o_min`
//! over the calibrated span the part number declares; its result is in
//! calibrated output counts, and the part number's unit scale factor
//! ([`PressureUnit::conversion_factor_micro`](crate::part_number::PressureUnit::conversion_factor_micro))
//! is deliberately not folded in here — unit scaling stays a separate,
//! caller-applied step.

use vstd::prelude::*;
use crate::part_number::Config;

verus! {

/// An exact rational engineering value, `num / den` with `den > 0`.
#[derive(Copy, Clone, Debug, PartialEq, Eq, Structural)]
pub struct Scaled {
    /// Numerator of the value.
    pub num: i64,
    /// Denominator of the value; always positive.
    pub den: u64,
}

/// Numerator of the temperature transfer function `(raw / 2047) * 200 - 50`
/// over the common denominator 2047.
pub open spec fn spec_temperature_num(raw: u16) -> int {
    200 * raw - 102350
}

impl Config {
    /// Numerator of the pressure transfer function over the denominator
    /// `p_span`: `o_span * (raw - p_min) + o_min * p_span`.
    pub open spec fn spec_pressure_num(self, raw: u16) -> int {
        self.o_span() * (raw - self.p_min) + self.o_min * self.p_span()
    }

    /// Apply the pressure transfer function to a raw 14-bit count.
    ///
    /// The result is the exact rational
    /// `(o_max - o_min) / (p_max - p_min) * (raw - p_min) + o_min`.
    pub fn convert_pressure(&self, reading: u16) -> (r: Scaled)
        requires
            self.wf(),
            reading < 0x4000,
        ensures
            r.num == self.spec_pressure_num(reading),
            r.den == self.p_span(),
            0 < r.den,
    {
        let o_span: i64 = self.o_max as i64 - self.o_min as i64;
        let p_span: i64 = self.p_max as i64 - self.p_min as i64;
        let shifted: i64 = reading as i64 - self.p_min as i64;
        proof {
            assert(o_span == 13107 && 1 <= p_span <= 1998 && 0 <= shifted <= 17382);
            assert(0 <= o_span * shifted <= 13107 * 17382) by (nonlinear_arith)
                requires
                    o_span == 13107,
                    0 <= shifted <= 17382,
            ;
            assert(0 <= self.o_min as i64 * p_span <= 1638 * 1998) by (nonlinear_arith)
                requires
                    self.o_min == 0x0666u16,
                    1 <= p_span <= 1998,
            ;
        }
        let num: i64 = o_span * shifted + self.o_min as i64 * p_span;
        Scaled { num, den: p_span as u64 }
    }

    /// Apply the temperature transfer function to a raw 11-bit count.
    ///
    /// The result is the exact rational `(raw / 2047) * 200 - 50`, mapping
    /// the 11-bit domain onto the calibrated -50..150 degree Celsius span.
    pub fn convert_temperature(&self, temperature_reading: u16) -> (r: Scaled)
        requires
            temperature_reading < 0x800,
        ensures
            r.num == spec_temperature_num(temperature_reading),
            r.den == 2047,
    {
        Scaled { num: 200 * temperature_reading as i64 - 102350, den: 2047 }
    }
}

/// Law: the temperature conversion is strictly monotonic over the 11-bit
/// domain.  Its numerator is linear with positive slope over the fixed
/// denominator 2047, so a larger raw count always converts to a strictly
/// larger temperature.
pub proof fn lemma_temperature_monotonic(r1: u16, r2: u16)
    requires
        r1 < r2,
    ensures
        spec_temperature_num(r1) < spec_temperature_num(r2),
{
}

} // verus!
