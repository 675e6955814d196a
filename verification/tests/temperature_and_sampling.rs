//! Checks of temperature conversion and of sensor aggregation.

use ak500_digital::sampler::{
    average_load_tenths, cpu_package_temperature, label_is_cpu_package, ComponentReading,
};
use ak500_digital::temperature::{Temperature, TemperatureUnit};

fn celsius(tenths: i32) -> Temperature {
    Temperature { unit: TemperatureUnit::Celsius, tenths }
}

fn fahrenheit(tenths: i32) -> Temperature {
    Temperature { unit: TemperatureUnit::Fahrenheit, tenths }
}

fn reading(label: &str, tenths: i32) -> ComponentReading {
    ComponentReading {
        label: label.as_bytes().to_vec(),
        temperature_tenths: tenths,
    }
}

#[test]
fn conversion_formulas() {
    // 25.0 °C is 77.0 °F; 30.0 °C is 86.0 °F; 0.0 °C is 32.0 °F.
    assert_eq!(celsius(250).convert(TemperatureUnit::Fahrenheit).tenths, 770);
    assert_eq!(celsius(300).convert(TemperatureUnit::Fahrenheit).tenths, 860);
    assert_eq!(celsius(0).convert(TemperatureUnit::Fahrenheit).tenths, 320);
    // 212.0 °F is 100.0 °C; -40 degrees coincide in both units.
    assert_eq!(fahrenheit(2120).convert(TemperatureUnit::Celsius).tenths, 1000);
    assert_eq!(fahrenheit(-400).convert(TemperatureUnit::Celsius).tenths, -400);
    assert_eq!(celsius(-400).convert(TemperatureUnit::Fahrenheit).tenths, -400);
}

#[test]
fn conversion_same_unit_is_identity() {
    let t = celsius(314);
    let c = t.convert(TemperatureUnit::Celsius);
    assert_eq!(c.tenths, 314);
    assert_eq!(c.unit, TemperatureUnit::Celsius);
}

#[test]
fn celsius_round_trip_is_exact() {
    for tenths in [-400i32, -1, 0, 1, 250, 314, 899, 900, 950, 12345] {
        let there = celsius(tenths).convert(TemperatureUnit::Fahrenheit);
        let back = there.convert(TemperatureUnit::Celsius);
        assert_eq!(back.tenths, tenths);
        assert_eq!(back.unit, TemperatureUnit::Celsius);
    }
}

#[test]
fn fahrenheit_round_trip_within_one_tenth() {
    for tenths in [-400i32, 0, 1, 320, 321, 322, 959, 2120] {
        let there = fahrenheit(tenths).convert(TemperatureUnit::Celsius);
        let back = there.convert(TemperatureUnit::Fahrenheit);
        assert!((back.tenths - tenths).abs() <= 1);
    }
}

#[test]
fn cross_unit_equality_symmetric_on_grid() {
    // 25.0 °C and 77.0 °F name the same temperature from either side.
    let a = celsius(250);
    let b = fahrenheit(770);
    assert!(a.eq_temp(&b));
    assert!(b.eq_temp(&a));
    assert!(a.ge_temp(&b));
    assert!(b.ge_temp(&a));
}

#[test]
fn cross_unit_equality_boundary() {
    // 32.1 °F sits strictly between the Fahrenheit images of 0.0 °C and
    // 0.1 °C: compared in Celsius it rounds onto 0.1 °C, compared in
    // Fahrenheit it equals neither. The finer grid decides.
    let a = celsius(1);
    let b = fahrenheit(321);
    assert!(b.eq_temp(&a));
    assert!(!a.eq_temp(&b));
}

#[test]
fn cross_unit_ordering() {
    // 95.0 °C (= 203.0 °F) reaches a 194.0 °F threshold; 89.0 °C does not.
    assert!(celsius(950).ge_temp(&fahrenheit(1940)));
    assert!(!celsius(890).ge_temp(&fahrenheit(1940)));
    // Same-unit comparison is plain.
    assert!(celsius(900).ge_temp(&celsius(900)));
    assert!(!celsius(899).ge_temp(&celsius(900)));
}

#[test]
fn package_label_prefix() {
    assert!(label_is_cpu_package(&b"coretemp Package id 0".to_vec()));
    assert!(label_is_cpu_package(&b"coretemp Package".to_vec()));
    assert!(!label_is_cpu_package(&b"coretemp Core 0".to_vec()));
    assert!(!label_is_cpu_package(&b"nvme Composite".to_vec()));
    assert!(!label_is_cpu_package(&b"coretemp Packag".to_vec()));
    assert!(!label_is_cpu_package(&b"".to_vec()));
}

#[test]
fn package_temperature_averages_only_packages() {
    let readings = vec![
        reading("coretemp Package id 0", 400),
        reading("nvme Composite", 9990),
        reading("coretemp Package id 1", 600),
        reading("acpitz temp1", 275),
    ];
    let t = cpu_package_temperature(&readings).unwrap();
    assert_eq!(t.unit, TemperatureUnit::Celsius);
    assert_eq!(t.tenths, 500);
}

#[test]
fn package_temperature_rounds_mean() {
    let readings = vec![
        reading("coretemp Package id 0", 401),
        reading("coretemp Package id 1", 400),
    ];
    // Mean of 40.05 rounds up to 40.1 tenths-of-degree resolution.
    assert_eq!(cpu_package_temperature(&readings).unwrap().tenths, 401);
}

#[test]
fn package_temperature_empty_is_failure() {
    assert!(cpu_package_temperature(&vec![]).is_none());
    let peripherals_only = vec![reading("nvme Composite", 400), reading("acpitz temp1", 300)];
    assert!(cpu_package_temperature(&peripherals_only).is_none());
}

#[test]
fn load_average_rounds_mean() {
    // (10.0% + 20.0% + 40.0%) / 3 rounds to 23.3%.
    assert_eq!(average_load_tenths(&vec![100, 200, 400]), Some(233));
    assert_eq!(average_load_tenths(&vec![1000]), Some(1000));
    assert_eq!(average_load_tenths(&vec![0, 0]), Some(0));
}

#[test]
fn load_average_empty_is_failure() {
    assert_eq!(average_load_tenths(&vec![]), None);
}
