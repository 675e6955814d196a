//! The seven-byte wire report.
//!
//! The display accepts a single fixed-format report:
//! `[report id, control unit, progress, hundreds, tens, units, warning]`.
//! The control unit is a wire-level tag selecting the glyph shown next to
//! the number; the three digit bytes carry a value clamped to 0-999.

use vstd::prelude::*;
use vstd::arithmetic::div_mod::{lemma_fundamental_div_mod, lemma_mod_mod, lemma_mod_bound};
use crate::math::spec_clamp;
use crate::temperature::TemperatureUnit;

verus! {

/// First byte of every report.
pub const REPORT_ID: u8 = 16;

/// Wire-level tag telling the display how to render the value beside it.
#[derive(Clone, Copy, Debug, PartialEq, Eq, Structural)]
pub enum ControlUnit {
    /// Degrees Celsius glyph.
    Celsius,
    /// Degrees Fahrenheit glyph.
    Fahrenheit,
    /// Percent glyph.
    Percentage,
    /// Loading animation, shown before the first sample is ready.
    Loading,
}

/// Byte the device expects for each control unit.
pub open spec fn spec_control_unit_byte(c: ControlUnit) -> u8 {
    match c {
        ControlUnit::Celsius => 19,
        ControlUnit::Fahrenheit => 35,
        ControlUnit::Percentage => 76,
        ControlUnit::Loading => 170,
    }
}

/// Control unit that renders a temperature of the given unit.
pub open spec fn spec_control_unit_of_unit(u: TemperatureUnit) -> ControlUnit {
    match u {
        TemperatureUnit::Celsius => ControlUnit::Celsius,
        TemperatureUnit::Fahrenheit => ControlUnit::Fahrenheit,
    }
}

impl ControlUnit {
    /// Explicit lookup of the tag byte sent on the wire.
    pub fn byte(self) -> (r: u8)
        ensures
            r == spec_control_unit_byte(self),
    {
        match self {
            ControlUnit::Celsius => 19,
            ControlUnit::Fahrenheit => 35,
            ControlUnit::Percentage => 76,
            ControlUnit::Loading => 170,
        }
    }

    /// The control unit showing temperatures of the given unit.
    pub fn of_temperature_unit(unit: TemperatureUnit) -> (r: Self)
        ensures
            r == spec_control_unit_of_unit(unit),
    {
        match unit {
            TemperatureUnit::Celsius => ControlUnit::Celsius,
            TemperatureUnit::Fahrenheit => ControlUnit::Fahrenheit,
        }
    }
}

/// Decimal digits of `v` once clamped to 0-999: hundreds, tens, units.
pub open spec fn spec_digits(v: int) -> Seq<u8> {
    let c = spec_clamp(v, 0, 999);
    seq![(c / 100) as u8, ((c % 100) / 10) as u8, (c % 10) as u8]
}

/// Converts the provided number 0-999 into the 3 digits that can be shown
/// on the digital display; larger values are clamped to 999, never wrapped.
/// The digits recompose exactly: `100*hundreds + 10*tens + units` equals
/// the clamped value.
pub fn convert_to_digits(value: u16) -> (r: [u8; 3])
    ensures
        r@ == spec_digits(value as int),
        r@[0] <= 9 && r@[1] <= 9 && r@[2] <= 9,
        100 * r@[0] + 10 * r@[1] + r@[2] == spec_clamp(value as int, 0, 999),
{
    let value: u16 = if value > 999 {
        999
    } else {
        value
    };

    let hundreds: u16 = value / 100;
    let tens: u16 = (value % 100) / 10;
    let units: u16 = value % 10;

    proof {
        lemma_fundamental_div_mod(value as int, 100);
        lemma_mod_bound(value as int, 100);
        lemma_fundamental_div_mod(value as int % 100, 10);
        lemma_mod_bound(value as int % 100, 10);
        lemma_mod_mod(value as int, 10, 10);
        lemma_mod_bound(value as int, 10);
    }

    [hundreds as u8, tens as u8, units as u8]
}

/// The seven bytes of one report: id, control-unit tag, progress level,
/// the three digits of the clamped value, and the warning flag.
pub open spec fn spec_report_bytes(c: ControlUnit, progress: u8, value: int, warning: bool) -> Seq<
    u8,
> {
    seq![
        REPORT_ID,
        spec_control_unit_byte(c),
        progress,
        spec_digits(value)[0],
        spec_digits(value)[1],
        spec_digits(value)[2],
        if warning {
            1u8
        } else {
            0u8
        },
    ]
}

/// Encodes one report for the device.
pub fn encode_report(c: ControlUnit, progress: u8, value: u16, warning: bool) -> (r: [u8; 7])
    ensures
        r@ == spec_report_bytes(c, progress, value as int, warning),
{
    let digits = convert_to_digits(value);
    let warning_byte: u8 = if warning {
        1
    } else {
        0
    };
    let r = [REPORT_ID, c.byte(), progress, digits[0], digits[1], digits[2], warning_byte];
    proof {
        assert(r@ =~= spec_report_bytes(c, progress, value as int, warning));
    }
    r
}

/// The report shown while the first sample is still being taken: the
/// loading animation with an all-zero payload.
pub fn loading_report() -> (r: [u8; 7])
    ensures
        r@ == spec_report_bytes(ControlUnit::Loading, 0, 0, false),
        r@ == seq![REPORT_ID, 170u8, 0u8, 0u8, 0u8, 0u8, 0u8],
{
    let r = encode_report(ControlUnit::Loading, 0, 0, false);
    proof {
        assert(r@ =~= seq![REPORT_ID, 170u8, 0u8, 0u8, 0u8, 0u8, 0u8]);
    }
    r
}

} // verus!
