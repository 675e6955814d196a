//! Sensor aggregation.
//!
//! The surrounding program reads the OS sensors and hands their raw
//! readings over as plain values: per-CPU load percentages and per-component
//! temperatures, both in integer tenths, with each temperature component's
//! label as bytes. This module holds the aggregation rules: the CPU package
//! temperature is the average of exactly the components whose label carries
//! the package prefix, and an empty selection is a sampling failure, never
//! a silent nonsense value.

use vstd::prelude::*;
use vstd::arithmetic::mul::lemma_mul_is_distributive_add_other_way;
use crate::math::{round_div, round_div_i64, round_div_u64, lemma_round_div_bound};
use crate::temperature::{Temperature, TemperatureUnit, MAG_LIMIT_TENTHS};

verus! {

/// One temperature-reporting component, as read from the OS: its label
/// (raw bytes) and its reading in tenths of a degree Celsius.
#[derive(Debug)]
pub struct ComponentReading {
    /// The component's label, e.g. `coretemp Package id 0`.
    pub label: Vec<u8>,
    /// The component's reading, in tenths of a degree Celsius.
    pub temperature_tenths: i32,
}

/// The label prefix marking a CPU package sensor: the bytes of
/// `coretemp Package`.
pub open spec fn spec_package_prefix() -> Seq<u8> {
    seq![
        99u8,
        111u8,
        114u8,
        101u8,
        116u8,
        101u8,
        109u8,
        112u8,
        32u8,
        80u8,
        97u8,
        99u8,
        107u8,
        97u8,
        103u8,
        101u8,
    ]
}

/// Whether a label names a CPU package sensor rather than a peripheral
/// one: it starts with the package prefix.
pub open spec fn is_package_label(label: Seq<u8>) -> bool {
    label.len() >= 16 && label.subrange(0, 16) == spec_package_prefix()
}

/// Byte `i` of the package prefix.
fn package_prefix_byte(i: usize) -> (r: u8)
    requires
        i < 16,
    ensures
        r == spec_package_prefix()[i as int],
{
    match i {
        0 => 99,
        1 => 111,
        2 => 114,
        3 => 101,
        4 => 116,
        5 => 101,
        6 => 109,
        7 => 112,
        8 => 32,
        9 => 80,
        10 => 97,
        11 => 99,
        12 => 107,
        13 => 97,
        14 => 103,
        _ => 101,
    }
}

/// Whether this label selects the component into the package average.
pub fn label_is_cpu_package(label: &Vec<u8>) -> (r: bool)
    ensures
        r == is_package_label(label@),
{
    if label.len() < 16 {
        return false;
    }
    let mut i: usize = 0;
    while i < 16
        invariant
            i <= 16,
            label@.len() >= 16,
            forall|j: int| 0 <= j < i ==> label@[j] == spec_package_prefix()[j],
        decreases 16 - i,
    {
        if label[i] != package_prefix_byte(i) {
            proof {
                assert(label@.subrange(0, 16)[i as int] == label@[i as int]);
            }
            return false;
        }
        i = i + 1;
    }
    proof {
        assert(label@.subrange(0, 16) =~= spec_package_prefix());
    }
    true
}

/// How many of the readings are CPU package sensors.
pub open spec fn spec_package_count(s: Seq<ComponentReading>) -> int
    decreases s.len(),
{
    if s.len() == 0 {
        0
    } else {
        spec_package_count(s.drop_last()) + if is_package_label(s.last().label@) {
            1int
        } else {
            0int
        }
    }
}

/// Sum, in tenths, of the CPU package sensors' readings.
pub open spec fn spec_package_sum(s: Seq<ComponentReading>) -> int
    decreases s.len(),
{
    if s.len() == 0 {
        0
    } else {
        spec_package_sum(s.drop_last()) + if is_package_label(s.last().label@) {
            s.last().temperature_tenths as int
        } else {
            0int
        }
    }
}

/// The package count never exceeds the number of readings, and the
/// package sum never exceeds the count's worth of in-range readings.
proof fn lemma_package_sum_bound(s: Seq<ComponentReading>)
    requires
        forall|i: int|
            0 <= i < s.len() ==> -MAG_LIMIT_TENTHS
                <= (#[trigger] s[i]).temperature_tenths <= MAG_LIMIT_TENTHS,
    ensures
        0 <= spec_package_count(s) <= s.len(),
        -spec_package_count(s) * MAG_LIMIT_TENTHS <= spec_package_sum(s) <= spec_package_count(s)
            * MAG_LIMIT_TENTHS,
    decreases s.len(),
{
    if s.len() > 0 {
        assert(forall|i: int|
            0 <= i < s.drop_last().len() ==> #[trigger] s.drop_last()[i] == s[i]);
        lemma_package_sum_bound(s.drop_last());
        let c = spec_package_count(s.drop_last());
        if is_package_label(s.last().label@) {
            lemma_mul_is_distributive_add_other_way(MAG_LIMIT_TENTHS as int, c, 1);
        }
    }
}

/// Average CPU package temperature over the given component readings:
/// the mean, rounded to the nearest tenth of a degree Celsius, of exactly
/// the components labelled as CPU packages. `None` when no component
/// matches — averaging over nothing is a sampling failure, reported as
/// such rather than smuggled out as a number.
pub fn cpu_package_temperature(readings: &Vec<ComponentReading>) -> (r: Option<Temperature>)
    requires
        readings@.len() <= 1_000_000,
        forall|i: int|
            0 <= i < readings@.len() ==> -MAG_LIMIT_TENTHS
                <= (#[trigger] readings@[i]).temperature_tenths <= MAG_LIMIT_TENTHS,
    ensures
        r is Some <==> spec_package_count(readings@) > 0,
        r is Some ==> {
            &&& r->Some_0.unit is Celsius
            &&& r->Some_0.tenths as int == round_div(
                spec_package_sum(readings@),
                spec_package_count(readings@),
            )
            &&& r->Some_0.wf()
        },
{
    let mut total_temp: i64 = 0;
    let mut total_temps: u64 = 0;
    let mut i: usize = 0;

    while i < readings.len()
        invariant
            i <= readings@.len() <= 1_000_000,
            forall|k: int|
                0 <= k < readings@.len() ==> -MAG_LIMIT_TENTHS
                    <= (#[trigger] readings@[k]).temperature_tenths <= MAG_LIMIT_TENTHS,
            total_temps as int == spec_package_count(readings@.take(i as int)),
            total_temp as int == spec_package_sum(readings@.take(i as int)),
            total_temps <= i,
            -(total_temps as int) * MAG_LIMIT_TENTHS <= total_temp as int <= (total_temps as int)
                * MAG_LIMIT_TENTHS,
        decreases readings@.len() - i,
    {
        let reading = &readings[i];
        proof {
            assert(readings@.take(i + 1).drop_last() =~= readings@.take(i as int));
            assert(readings@.take(i + 1).last() == readings@[i as int]);
            lemma_mul_is_distributive_add_other_way(
                MAG_LIMIT_TENTHS as int,
                total_temps as int,
                1,
            );
        }
        if label_is_cpu_package(&reading.label) {
            total_temp = total_temp + reading.temperature_tenths as i64;
            total_temps = total_temps + 1;
        }
        i = i + 1;
    }
    proof {
        assert(readings@.take(readings@.len() as int) =~= readings@);
    }

    if total_temps == 0 {
        None
    } else {
        let avg: i64 = round_div_i64(total_temp, total_temps);
        proof {
            lemma_round_div_bound(total_temp as int, total_temps as int, MAG_LIMIT_TENTHS as int);
        }
        Some(Temperature { unit: TemperatureUnit::Celsius, tenths: avg as i32 })
    }
}

/// Sum of per-CPU loads, in tenths of a percent.
pub open spec fn spec_load_sum(s: Seq<u32>) -> int
    decreases s.len(),
{
    if s.len() == 0 {
        0
    } else {
        spec_load_sum(s.drop_last()) + s.last() as int
    }
}

/// Aggregate CPU utilization over the per-CPU loads (tenths of a
/// percent): their mean rounded to the nearest tenth. `None` when no CPU
/// was reported — an average over nothing is a sampling failure.
pub fn average_load_tenths(loads: &Vec<u32>) -> (r: Option<u32>)
    requires
        loads@.len() <= 1_000_000,
        forall|i: int| 0 <= i < loads@.len() ==> loads@[i] <= 100_000,
    ensures
        r is Some <==> loads@.len() > 0,
        r is Some ==> {
            &&& r->Some_0 as int == round_div(spec_load_sum(loads@), loads@.len() as int)
            &&& r->Some_0 <= 100_000
        },
{
    let mut total_usage: u64 = 0;
    let mut i: usize = 0;

    while i < loads.len()
        invariant
            i <= loads@.len() <= 1_000_000,
            forall|k: int| 0 <= k < loads@.len() ==> loads@[k] <= 100_000,
            total_usage as int == spec_load_sum(loads@.take(i as int)),
            total_usage <= i * 100_000,
        decreases loads@.len() - i,
    {
        proof {
            assert(loads@.take(i + 1).drop_last() =~= loads@.take(i as int));
            assert(loads@.take(i + 1).last() == loads@[i as int]);
            lemma_mul_is_distributive_add_other_way(100_000int, i as int, 1);
        }
        total_usage = total_usage + loads[i] as u64;
        i = i + 1;
    }
    proof {
        assert(loads@.take(loads@.len() as int) =~= loads@);
    }

    if loads.len() == 0 {
        None
    } else {
        let avg: u64 = round_div_u64(total_usage, loads.len() as u64);
        proof {
            lemma_round_div_bound(
                total_usage as int,
                loads@.len() as int,
                100_000int,
            );
        }
        Some(avg as u32)
    }
}

} // verus!
