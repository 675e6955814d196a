//! Unit-tagged temperatures.
//!
//! A `Temperature` pairs a unit with a magnitude in integer tenths of a
//! degree (deci-degrees), the precision the rest of the pipeline works at;
//! the program converts a sensor's fractional reading to tenths before it
//! reaches the library. Conversion between units follows the linear
//! formulas `F = C * 9/5 + 32` and `C = (F - 32) * 5/9`, rounded to the
//! nearest tenth, and cross-unit comparison converts the left operand into
//! the right operand's unit first.

use vstd::prelude::*;
use crate::math::{
    round_div, round_div_i64, lemma_round_div_error, lemma_round_div_exact, lemma_round_div_bound,
};

verus! {

/// Unit a temperature magnitude is expressed in.
#[derive(Clone, Copy, Debug, PartialEq, Eq, Structural)]
pub enum TemperatureUnit {
    /// Degrees Celsius.
    Celsius,
    /// Degrees Fahrenheit.
    Fahrenheit,
}

/// Largest magnitude, in tenths of a degree, the library promises to
/// convert without overflow; far beyond any physical sensor reading.
pub const MAG_LIMIT_TENTHS: i32 = 100_000_000;

/// A temperature: a magnitude in tenths of a degree of the paired unit.
#[derive(Clone, Copy, Debug)]
pub struct Temperature {
    /// Unit the magnitude is relative to.
    pub unit: TemperatureUnit,
    /// Magnitude in tenths of a degree.
    pub tenths: i32,
}

/// Magnitude, in tenths, of a temperature converted from `from` to `to`:
/// identity for a same-unit conversion, otherwise the linear formula
/// rounded to the nearest tenth.
pub open spec fn spec_convert(from: TemperatureUnit, to: TemperatureUnit, tenths: int) -> int {
    match (from, to) {
        (TemperatureUnit::Celsius, TemperatureUnit::Fahrenheit) => round_div(tenths * 9, 5) + 320,
        (TemperatureUnit::Fahrenheit, TemperatureUnit::Celsius) => round_div(
            (tenths - 320) * 5,
            9,
        ),
        _ => tenths,
    }
}

/// Cross-unit equality, as the device driver compares temperatures:
/// `a` converted into `b`'s unit, magnitudes then compared exactly.
pub open spec fn spec_temp_eq(a: Temperature, b: Temperature) -> bool {
    spec_convert(a.unit, b.unit, a.tenths as int) == b.tenths as int
}

/// Cross-unit "at least": `a` converted into `b`'s unit reaches `b`.
pub open spec fn spec_temp_ge(a: Temperature, b: Temperature) -> bool {
    spec_convert(a.unit, b.unit, a.tenths as int) >= b.tenths as int
}

/// A Fahrenheit magnitude that survives the trip through Celsius and back
/// unchanged; Celsius magnitudes always survive the reverse trip.
pub open spec fn fahrenheit_round_trips(tenths: int) -> bool {
    spec_convert(
        TemperatureUnit::Celsius,
        TemperatureUnit::Fahrenheit,
        spec_convert(TemperatureUnit::Fahrenheit, TemperatureUnit::Celsius, tenths),
    ) == tenths
}

impl Temperature {
    /// Magnitude small enough for conversion arithmetic to stay in bounds.
    pub open spec fn wf(self) -> bool {
        -MAG_LIMIT_TENTHS <= self.tenths <= MAG_LIMIT_TENTHS
    }

    /// Converts the temperature to the provided unit.
    pub fn convert(self, unit: TemperatureUnit) -> (r: Self)
        requires
            self.wf(),
        ensures
            r.unit == unit,
            r.tenths as int == spec_convert(self.unit, unit, self.tenths as int),
            -200_000_000 <= r.tenths <= 200_000_000,
    {
        match (self.unit, unit) {
            (TemperatureUnit::Celsius, TemperatureUnit::Fahrenheit) => {
                let scaled: i64 = (self.tenths as i64) * 9;
                let q: i64 = round_div_i64(scaled, 5);
                proof {
                    lemma_round_div_bound(scaled as int, 5, 180_000_000);
                }
                Temperature { unit, tenths: (q as i32) + 320 }
            },
            (TemperatureUnit::Fahrenheit, TemperatureUnit::Celsius) => {
                let scaled: i64 = ((self.tenths as i64) - 320) * 5;
                let q: i64 = round_div_i64(scaled, 9);
                proof {
                    lemma_round_div_bound(scaled as int, 9, 60_000_000);
                }
                Temperature { unit, tenths: q as i32 }
            },
            _ => self,
        }
    }

    /// Cross-unit equality against `other`, comparing in `other`'s unit.
    pub fn eq_temp(&self, other: &Temperature) -> (r: bool)
        requires
            self.wf(),
        ensures
            r == spec_temp_eq(*self, *other),
    {
        let converted = self.convert(other.unit);
        converted.tenths == other.tenths
    }

    /// Cross-unit "at least" against `other`, comparing in `other`'s unit.
    pub fn ge_temp(&self, other: &Temperature) -> (r: bool)
        requires
            self.wf(),
        ensures
            r == spec_temp_ge(*self, *other),
    {
        let converted = self.convert(other.unit);
        converted.tenths >= other.tenths
    }
}

/// Converting tenths of a degree Celsius to Fahrenheit and back returns
/// exactly the original magnitude: the first rounding loses less than the
/// coarser Fahrenheit grid can distinguish.
pub proof fn lemma_round_trip_celsius(t: int)
    ensures
        spec_convert(
            TemperatureUnit::Fahrenheit,
            TemperatureUnit::Celsius,
            spec_convert(TemperatureUnit::Celsius, TemperatureUnit::Fahrenheit, t),
        ) == t,
{
    let q = round_div(t * 9, 5);
    lemma_round_div_error(t * 9, 5);
    lemma_round_div_exact(q * 5, 9, t);
}

/// Converting tenths of a degree Fahrenheit to Celsius and back lands
/// within one tenth of the original magnitude: the Fahrenheit grid is
/// finer than the Celsius one, so a single tenth can be lost.
pub proof fn lemma_round_trip_fahrenheit(t: int)
    ensures
        -1 <= spec_convert(
            TemperatureUnit::Celsius,
            TemperatureUnit::Fahrenheit,
            spec_convert(TemperatureUnit::Fahrenheit, TemperatureUnit::Celsius, t),
        ) - t <= 1,
{
    let c = round_div((t - 320) * 5, 9);
    lemma_round_div_error((t - 320) * 5, 9);
    let e = c * 9 - (t - 320) * 5;
    assert(-4 <= e <= 4);
    if -2 <= e <= 2 {
        lemma_round_div_exact(c * 9, 5, t - 320);
    } else if e > 2 {
        lemma_round_div_exact(c * 9, 5, t - 319);
    } else {
        lemma_round_div_exact(c * 9, 5, t - 321);
    }
}

/// Cross-unit equality is symmetric — comparing `a` to `b` in `b`'s unit
/// agrees with comparing `b` to `a` in `a`'s unit — whenever the operands
/// share a unit or the Fahrenheit-side magnitude survives its round trip
/// through Celsius. (A Fahrenheit magnitude strictly between two grid
/// points, such as 32.1 °F against 0.1 °C, can be equal in Celsius but
/// not in Fahrenheit, so that condition cannot be dropped.)
pub proof fn lemma_temp_eq_symmetric(a: Temperature, b: Temperature)
    requires
        a.unit == b.unit || {
            let f = if a.unit is Fahrenheit {
                a.tenths as int
            } else {
                b.tenths as int
            };
            fahrenheit_round_trips(f)
        },
    ensures
        spec_temp_eq(a, b) == spec_temp_eq(b, a),
{
    if a.unit != b.unit {
        let c = if a.unit is Celsius {
            a.tenths as int
        } else {
            b.tenths as int
        };
        lemma_round_trip_celsius(c);
    }
}

} // verus!
