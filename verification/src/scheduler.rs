//! The tick scheduler.
//!
//! The process around the library owns the clock and the transport; this
//! module owns every decision a tick makes. A `Scheduler` starts in an
//! initializing phase whose only output is the loading report — produced
//! exactly once, before any sample — and then runs: each tick maps the
//! current sample and configuration to the wire report for the current
//! frame and advances the frame counter, which cycles 0 through 9.

use vstd::prelude::*;
use crate::policy::{
    Configuration, derive_display_state, spec_display_value, spec_progress, spec_shows_temperature,
    spec_warning,
};
use crate::report::{
    ControlUnit, encode_report, loading_report, spec_control_unit_of_unit, spec_report_bytes,
};
use crate::temperature::Temperature;

verus! {

/// Control unit a tick renders with: the configured temperature glyph
/// during temperature view, the percent glyph otherwise.
pub open spec fn spec_tick_control_unit(config: Configuration, frame: u8) -> ControlUnit {
    if spec_shows_temperature(config.display_mode, frame) {
        spec_control_unit_of_unit(config.temperature_unit)
    } else {
        ControlUnit::Percentage
    }
}

/// The full report a tick sends, as a function of configuration, sample
/// and frame alone.
pub open spec fn spec_tick_report(
    config: Configuration,
    load_tenths: int,
    temp: Temperature,
    frame: u8,
) -> Seq<u8> {
    spec_report_bytes(
        spec_tick_control_unit(config, frame),
        spec_progress(load_tenths) as u8,
        spec_display_value(config, load_tenths, temp, frame),
        spec_warning(config, temp),
    )
}

/// Owner of the frame counter and of the one-shot initializing phase.
#[derive(Clone, Copy, Debug)]
pub struct Scheduler {
    /// Whether the loading report has already been handed out.
    pub started: bool,
    /// Current frame, cycling 0 through 9.
    pub frame: u8,
}

impl Scheduler {
    /// The frame counter stays inside its ten-frame cycle.
    pub open spec fn wf(self) -> bool {
        self.frame < 10
    }

    /// A scheduler about to initialize: nothing sent yet, frame zero.
    pub fn new() -> (s: Self)
        ensures
            !s.started,
            s.frame == 0,
            s.wf(),
    {
        Scheduler { started: false, frame: 0 }
    }

    /// The loading report, handed out exactly once per scheduler: the
    /// first call returns it and moves the scheduler to its running
    /// phase; every later call returns nothing and changes nothing.
    pub fn startup_report(&mut self) -> (r: Option<[u8; 7]>)
        ensures
            final(self).started,
            final(self).frame == old(self).frame,
            !old(self).started ==> r is Some && r->Some_0@ == spec_report_bytes(
                ControlUnit::Loading,
                0,
                0,
                false,
            ),
            old(self).started ==> r is None,
    {
        if self.started {
            None
        } else {
            self.started = true;
            Some(loading_report())
        }
    }

    /// One running tick: the report for the current frame, with the frame
    /// counter advanced through its ten-frame cycle (back to 0 after 9).
    pub fn tick(&mut self, config: &Configuration, load_tenths: u32, temp: Temperature) -> (r: [u8;
        7])
        requires
            old(self).wf(),
            old(self).started,
            temp.wf(),
            config.wf(),
        ensures
            final(self).wf(),
            final(self).started,
            final(self).frame as int == (old(self).frame as int + 1) % 10,
            r@ == spec_tick_report(*config, load_tenths as int, temp, old(self).frame),
    {
        let state = derive_display_state(config, load_tenths, temp, self.frame);
        let report = encode_report(state.control_unit, state.progress, state.value, state.warning);
        self.frame = if self.frame == 9 {
            0
        } else {
            self.frame + 1
        };
        report
    }
}

} // verus!
