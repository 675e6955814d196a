//! Display policy: from a sample to an abstract display state.
//!
//! A pure derivation: configuration, the sampled load (tenths of a
//! percent), the sampled temperature and the scheduler's frame counter in;
//! which glyph to show, the numeric value, the 1-10 progress-bar level and
//! the warning flag out. The encoder then turns the state into wire bytes.

use vstd::prelude::*;
use crate::math::{round_div, spec_clamp, round_div_u64, round_div_i64};
use crate::report::{ControlUnit, spec_control_unit_of_unit};
use crate::temperature::{Temperature, TemperatureUnit, spec_convert, spec_temp_ge};

verus! {

/// Which view the display focuses on.
#[derive(Clone, Copy, Debug, PartialEq, Eq, Structural)]
pub enum DisplayMode {
    /// Show temperature as the main focus.
    Temperature,
    /// Show CPU utilization as the main focus.
    Utilization,
    /// Alternate between temperature and utilization.
    Automatic,
}

/// By default warnings are shown.
pub fn default_show_warning() -> (r: bool)
    ensures
        r == true,
{
    true
}

/// By default warn when the temperature reaches 90.0 degrees Celsius
/// (stated in tenths of a degree).
pub fn default_warning_temperature() -> (r: i32)
    ensures
        r == 900,
{
    900
}

/// Resolved configuration, immutable for the life of the process.
#[derive(Clone, Copy, Debug)]
pub struct Configuration {
    /// Unit to use for showing the temperature.
    pub temperature_unit: TemperatureUnit,
    /// Whether to show a high temperature warning.
    pub show_warning: bool,
    /// Temperature to show warnings at, in tenths of `temperature_unit`.
    pub warning_temperature: i32,
    /// Display mode.
    pub display_mode: DisplayMode,
}

/// The configuration every field falls back to: Celsius, warnings on at
/// 90.0 degrees, temperature view.
pub open spec fn spec_default_configuration() -> Configuration {
    Configuration {
        temperature_unit: TemperatureUnit::Celsius,
        show_warning: true,
        warning_temperature: 900,
        display_mode: DisplayMode::Temperature,
    }
}

impl Configuration {
    /// The warning threshold is small enough for conversion arithmetic.
    pub open spec fn wf(self) -> bool {
        self.spec_warning_threshold().wf()
    }

    /// The threshold the sampled temperature is compared against: the
    /// configured magnitude, read in the configured unit.
    pub open spec fn spec_warning_threshold(self) -> Temperature {
        Temperature { unit: self.temperature_unit, tenths: self.warning_temperature }
    }

    /// The threshold the sampled temperature is compared against.
    pub fn warning_threshold(&self) -> (r: Temperature)
        ensures
            r == self.spec_warning_threshold(),
    {
        Temperature { unit: self.temperature_unit, tenths: self.warning_temperature }
    }
}

impl Default for Configuration {
    /// The defaults used when no configuration source is present.
    fn default() -> (r: Self)
        ensures
            r == spec_default_configuration(),
    {
        Configuration {
            temperature_unit: TemperatureUnit::Celsius,
            show_warning: default_show_warning(),
            warning_temperature: default_warning_temperature(),
            display_mode: DisplayMode::Temperature,
        }
    }
}

/// Abstract state of the display for one tick.
#[derive(Clone, Copy, Debug)]
pub struct DisplayState {
    /// Glyph the value is rendered with.
    pub control_unit: ControlUnit,
    /// Filled segments of the ten-segment utilization bar, always 1-10.
    pub progress: u8,
    /// Numeric value to render, already clamped to the 0-999 digit field.
    pub value: u16,
    /// Whether the high-temperature warning flashes.
    pub warning: bool,
}

impl DisplayState {
    /// The bar level and value stay inside the wire format's ranges.
    pub open spec fn wf(self) -> bool {
        1 <= self.progress <= 10 && self.value <= 999
    }
}

/// Whether a tick shows the temperature view: always in `Temperature`
/// mode, and during frames 0-4 of each ten-frame cycle in `Automatic`
/// mode (frames 5-9 show utilization, as does `Utilization` mode).
pub open spec fn spec_shows_temperature(mode: DisplayMode, frame: u8) -> bool {
    mode is Temperature || (mode is Automatic && frame < 5)
}

/// Bar level for a load in tenths of a percent: the load rounded to a
/// tenth of its percentage, forced into 1-10 so the bar never reads
/// empty and never exceeds its ten segments.
pub open spec fn spec_progress(load_tenths: int) -> int {
    spec_clamp(round_div(load_tenths, 100), 1, 10)
}

/// Whether the warning flag is set: warnings are enabled and the sampled
/// temperature, converted to the configured unit, meets or exceeds the
/// configured threshold. (Meets-or-exceeds, not strictly-exceeds, is the
/// reading of "warn at 90 degrees" this library commits to.)
pub open spec fn spec_warning(config: Configuration, temp: Temperature) -> bool {
    config.show_warning && spec_temp_ge(temp, config.spec_warning_threshold())
}

/// Value rendered beside the glyph: the temperature rounded to whole
/// degrees of the configured unit, or the whole-percent load, each
/// clamped to the 0-999 digit field.
pub open spec fn spec_display_value(
    config: Configuration,
    load_tenths: int,
    temp: Temperature,
    frame: u8,
) -> int {
    if spec_shows_temperature(config.display_mode, frame) {
        spec_clamp(
            round_div(spec_convert(temp.unit, config.temperature_unit, temp.tenths as int), 10),
            0,
            999,
        )
    } else {
        spec_clamp(load_tenths / 10, 0, 999)
    }
}

/// Derives the abstract display state for one tick: glyph per mode and
/// frame, rounded value, 1-10 bar level, warning flag.
pub fn derive_display_state(
    config: &Configuration,
    load_tenths: u32,
    temp: Temperature,
    frame: u8,
) -> (s: DisplayState)
    requires
        temp.wf(),
        config.wf(),
    ensures
        s.control_unit == if spec_shows_temperature(config.display_mode, frame) {
            spec_control_unit_of_unit(config.temperature_unit)
        } else {
            ControlUnit::Percentage
        },
        s.progress == spec_progress(load_tenths as int),
        s.value == spec_display_value(*config, load_tenths as int, temp, frame),
        s.warning == spec_warning(*config, temp),
        s.wf(),
{
    let rounded_load: u64 = round_div_u64(load_tenths as u64, 100);
    let progress: u8 = if rounded_load < 1 {
        1
    } else if rounded_load > 10 {
        10
    } else {
        rounded_load as u8
    };

    let warning: bool = if config.show_warning {
        temp.ge_temp(&config.warning_threshold())
    } else {
        false
    };

    let shows_temperature: bool = match config.display_mode {
        DisplayMode::Temperature => true,
        DisplayMode::Automatic => frame < 5,
        DisplayMode::Utilization => false,
    };

    if shows_temperature {
        let local = temp.convert(config.temperature_unit);
        let rounded: i64 = round_div_i64(local.tenths as i64, 10);
        let value: u16 = if rounded < 0 {
            0
        } else if rounded > 999 {
            999
        } else {
            rounded as u16
        };
        DisplayState {
            control_unit: ControlUnit::of_temperature_unit(config.temperature_unit),
            progress,
            value,
            warning,
        }
    } else {
        let whole: u32 = load_tenths / 10;
        let value: u16 = if whole > 999 {
            999
        } else {
            whole as u16
        };
        DisplayState { control_unit: ControlUnit::Percentage, progress, value, warning }
    }
}

/// The bar level is in 1-10 for every load whatsoever — in particular 1
/// at 0% and 10 at 100% — so the ten-segment bar is always drawable.
pub proof fn lemma_progress_in_range(load_tenths: int)
    ensures
        1 <= spec_progress(load_tenths) <= 10,
        spec_progress(0) == 1,
        spec_progress(1000) == 10,
{
}

} // verus!
