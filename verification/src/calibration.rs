//! The sensor's transfer functions, in exact fixed-point arithmetic.
//!
//! A calibrated value is an integer count of `1 / UNITS_PER_ONE` of a degree
//! Celsius or of a percent relative humidity. With 6 553 600 units to one,
//! both transfer functions of the datasheet are exact on every raw reading,
//! so nothing is rounded before a caller chooses a representation.

use vstd::prelude::*;

verus! {

/// How many units make one degree Celsius, or one percent relative humidity.
pub const UNITS_PER_ONE: i32 = 6_553_600;

/// The temperature transfer function: `175.72 * raw / 65536 - 46.85` degrees
/// Celsius, counted in units. It is linear over all of its domain.
pub open spec fn temperature_units(raw: int) -> int {
    17_572 * raw - 4_685 * 65_536
}

/// The humidity transfer function before saturation: `125 * raw / 65536 - 6`
/// percent, counted in units.
pub open spec fn linear_humidity_units(raw: int) -> int {
    12_500 * raw - 6 * UNITS_PER_ONE
}

/// The relative humidity for a raw reading: the linear transfer function,
/// saturated into the closed interval from 0 to 100 percent.
pub open spec fn humidity_units(raw: int) -> int {
    let linear = linear_humidity_units(raw);
    if linear < 0 {
        0
    } else if linear > 100 * UNITS_PER_ONE {
        100 * UNITS_PER_ONE
    } else {
        linear
    }
}

/// Converts a raw temperature reading to degrees Celsius, in units.
///
/// The raw reading is taken as it is: status bits that a device may carry in
/// its low bits are not masked out.
pub fn calculate_temperature(raw_temperature: u16) -> (units: i32)
    ensures
        units == temperature_units(raw_temperature as int),
{
    17_572 * (raw_temperature as i32) - 4_685 * 65_536
}

/// Converts a raw humidity reading to percent relative humidity, in units,
/// never below 0 percent and never above 100 percent.
pub fn calculate_relative_humidity(raw_humidity: u16) -> (units: i32)
    ensures
        units == humidity_units(raw_humidity as int),
        0 <= units <= 100 * UNITS_PER_ONE,
{
    let linear: i32 = 12_500 * (raw_humidity as i32) - 6 * UNITS_PER_ONE;
    if linear < 0 {
        0
    } else if linear > 100 * UNITS_PER_ONE {
        100 * UNITS_PER_ONE
    } else {
        linear
    }
}

/// Every relative humidity lies between 0 and 100 percent, whatever the raw
/// reading.
pub proof fn lemma_humidity_within_percent(raw: int)
    ensures
        0 <= humidity_units(raw) <= 100 * UNITS_PER_ONE,
{
}

/// Between its two saturation points the relative humidity is the linear
/// transfer function; below it is 0 percent, above it is 100 percent.
pub proof fn lemma_humidity_saturation(raw: int)
    ensures
        raw <= 3_145 ==> humidity_units(raw) == 0,
        3_146 <= raw <= 55_574 ==> humidity_units(raw) == linear_humidity_units(raw),
        55_575 <= raw ==> humidity_units(raw) == 100 * UNITS_PER_ONE,
{
}

/// The temperature is never saturated: a greater raw reading always gives a
/// greater temperature, by 17 572 units for each step of the raw reading.
pub proof fn lemma_temperature_unclamped(low: int, high: int)
    requires
        low < high,
    ensures
        temperature_units(low) < temperature_units(high),
        temperature_units(high) - temperature_units(low) == 17_572 * (high - low),
{
}

} // verus!
