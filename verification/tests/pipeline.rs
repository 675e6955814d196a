//! End-to-end checks of the sampling → policy → encoding pipeline.

use ak500_digital::policy::{
    default_show_warning, default_warning_temperature, derive_display_state, Configuration,
    DisplayMode,
};
use ak500_digital::report::{convert_to_digits, encode_report, loading_report, ControlUnit};
use ak500_digital::scheduler::Scheduler;
use ak500_digital::temperature::{Temperature, TemperatureUnit};

fn default_configuration() -> Configuration {
    Configuration {
        temperature_unit: TemperatureUnit::Celsius,
        show_warning: default_show_warning(),
        warning_temperature: default_warning_temperature(),
        display_mode: DisplayMode::Temperature,
    }
}

fn celsius(tenths: i32) -> Temperature {
    Temperature { unit: TemperatureUnit::Celsius, tenths }
}

#[test]
fn digits_recompose_clamped_value() {
    for value in [0u16, 1, 9, 10, 45, 95, 100, 450, 500, 999, 1000, 5000, u16::MAX] {
        let [hundreds, tens, units] = convert_to_digits(value);
        let clamped = value.min(999) as u32;
        assert!(hundreds <= 9 && tens <= 9 && units <= 9);
        assert_eq!(
            100 * hundreds as u32 + 10 * tens as u32 + units as u32,
            clamped
        );
    }
}

#[test]
fn digits_exact_values() {
    assert_eq!(convert_to_digits(0), [0, 0, 0]);
    assert_eq!(convert_to_digits(30), [0, 3, 0]);
    assert_eq!(convert_to_digits(95), [0, 9, 5]);
    assert_eq!(convert_to_digits(999), [9, 9, 9]);
    assert_eq!(convert_to_digits(1000), [9, 9, 9]);
}

#[test]
fn control_unit_bytes() {
    assert_eq!(ControlUnit::Celsius.byte(), 19);
    assert_eq!(ControlUnit::Fahrenheit.byte(), 35);
    assert_eq!(ControlUnit::Percentage.byte(), 76);
    assert_eq!(ControlUnit::Loading.byte(), 170);
    assert_eq!(
        ControlUnit::of_temperature_unit(TemperatureUnit::Celsius),
        ControlUnit::Celsius
    );
    assert_eq!(
        ControlUnit::of_temperature_unit(TemperatureUnit::Fahrenheit),
        ControlUnit::Fahrenheit
    );
}

#[test]
fn progress_edges() {
    let config = default_configuration();
    let temp = celsius(300);
    // 0% load still fills one segment.
    assert_eq!(derive_display_state(&config, 0, temp, 0).progress, 1);
    // 100% load fills all ten, never more.
    assert_eq!(derive_display_state(&config, 1000, temp, 0).progress, 10);
    // 45% rounds to 5 of 10.
    assert_eq!(derive_display_state(&config, 450, temp, 0).progress, 5);
    // 4.4% rounds down to the floor of one segment.
    assert_eq!(derive_display_state(&config, 44, temp, 0).progress, 1);
    // Absurd over-range load is still capped at ten segments.
    assert_eq!(
        derive_display_state(&config, 4_000_000, temp, 0).progress,
        10
    );
}

#[test]
fn automatic_mode_frame_windows() {
    let config = Configuration {
        display_mode: DisplayMode::Automatic,
        ..default_configuration()
    };
    let temp = celsius(300);
    for frame in 0u8..5 {
        let state = derive_display_state(&config, 450, temp, frame);
        assert_eq!(state.control_unit, ControlUnit::Celsius);
        assert_eq!(state.value, 30);
    }
    for frame in 5u8..10 {
        let state = derive_display_state(&config, 450, temp, frame);
        assert_eq!(state.control_unit, ControlUnit::Percentage);
        assert_eq!(state.value, 45);
    }
}

#[test]
fn fixed_modes_ignore_frame() {
    let temp = celsius(300);
    let temperature_mode = default_configuration();
    let utilization_mode = Configuration {
        display_mode: DisplayMode::Utilization,
        ..default_configuration()
    };
    for frame in 0u8..10 {
        assert_eq!(
            derive_display_state(&temperature_mode, 450, temp, frame).control_unit,
            ControlUnit::Celsius
        );
        assert_eq!(
            derive_display_state(&utilization_mode, 450, temp, frame).control_unit,
            ControlUnit::Percentage
        );
    }
}

#[test]
fn warning_meets_or_exceeds_threshold() {
    let config = default_configuration();
    // 90.0 °C meets the default 90.0 °C threshold.
    assert!(derive_display_state(&config, 0, celsius(900), 0).warning);
    // 95.0 °C exceeds it.
    assert!(derive_display_state(&config, 0, celsius(950), 0).warning);
    // 89.9 °C does not reach it.
    assert!(!derive_display_state(&config, 0, celsius(899), 0).warning);
}

#[test]
fn warning_respects_toggle() {
    let config = Configuration {
        show_warning: false,
        ..default_configuration()
    };
    assert!(!derive_display_state(&config, 0, celsius(990), 0).warning);
}

#[test]
fn warning_converts_across_units() {
    // Threshold configured as 194.0 °F; a 95.0 °C sample is 203.0 °F.
    let config = Configuration {
        temperature_unit: TemperatureUnit::Fahrenheit,
        warning_temperature: 1940,
        ..default_configuration()
    };
    assert!(derive_display_state(&config, 0, celsius(950), 0).warning);
    // 89.0 °C is 192.2 °F, below the threshold.
    assert!(!derive_display_state(&config, 0, celsius(890), 0).warning);
}

#[test]
fn fahrenheit_view_converts_value() {
    let config = Configuration {
        temperature_unit: TemperatureUnit::Fahrenheit,
        ..default_configuration()
    };
    let state = derive_display_state(&config, 0, celsius(300), 0);
    assert_eq!(state.control_unit, ControlUnit::Fahrenheit);
    // 30.0 °C is 86.0 °F.
    assert_eq!(state.value, 86);
}

#[test]
fn negative_temperature_clamps_to_zero() {
    let config = default_configuration();
    let state = derive_display_state(&config, 0, celsius(-150), 0);
    assert_eq!(state.value, 0);
}

#[test]
fn hot_warning_scenario_report() {
    // Celsius unit, warn at 90, temperature mode; 45% load at 95.0 °C.
    let config = default_configuration();
    let mut scheduler = Scheduler::new();
    let _ = scheduler.startup_report();
    let report = scheduler.tick(&config, 450, celsius(950));
    assert_eq!(report, [16, 19, 5, 0, 9, 5, 1]);
}

#[test]
fn idle_scenario_report() {
    // Default configuration; idle CPU at 30.0 °C.
    let config = default_configuration();
    let mut scheduler = Scheduler::new();
    let _ = scheduler.startup_report();
    let report = scheduler.tick(&config, 0, celsius(300));
    assert_eq!(report, [16, 19, 1, 0, 3, 0, 0]);
}

#[test]
fn loading_report_sent_exactly_once() {
    let mut scheduler = Scheduler::new();
    let first = scheduler.startup_report();
    assert_eq!(first, Some([16, 170, 0, 0, 0, 0, 0]));
    assert_eq!(scheduler.startup_report(), None);
    assert_eq!(scheduler.startup_report(), None);
    assert_eq!(loading_report(), [16, 170, 0, 0, 0, 0, 0]);
}

#[test]
fn frame_counter_cycles_back_to_zero() {
    let config = default_configuration();
    let mut scheduler = Scheduler::new();
    let _ = scheduler.startup_report();
    for expected in [1u8, 2, 3, 4, 5, 6, 7, 8, 9, 0, 1] {
        let _ = scheduler.tick(&config, 450, celsius(300));
        assert_eq!(scheduler.frame, expected);
    }
}

#[test]
fn encode_report_layout() {
    let report = encode_report(ControlUnit::Percentage, 7, 123, false);
    assert_eq!(report, [16, 76, 7, 1, 2, 3, 0]);
}
