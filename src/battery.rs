//! Battery charge from the raw reading of the battery-voltage divider.

use vstd::prelude::*;

verus! {

/// Millivolts at the divider for a raw 12-bit reading, by the board's linear
/// calibration rounded to the nearest millivolt.
pub open spec fn divider_mv(adc_value: u16) -> int {
    (52814 * adc_value as int + 32768) / 65536 + 142
}

/// Battery charge in percent: 3300 mV and below is empty, and each 8 mV
/// above adds one percent, up to 100.
pub open spec fn spec_battery_level(adc_value: u16) -> int {
    let battery_mv = 2 * divider_mv(adc_value);
    if battery_mv <= 3300 {
        0
    } else if (battery_mv - 3300) * 100 / 800 >= 100 {
        100
    } else {
        (battery_mv - 3300) * 100 / 800
    }
}

/// Battery charge in percent for a raw reading of the battery divider.
pub fn battery_level(adc_value: u16) -> (r: u8)
    ensures
        r == spec_battery_level(adc_value),
        r <= 100,
{
    assert(52814 * (adc_value as u32) <= 52814 * 65535) by (nonlinear_arith);
    let adc_mv: u32 = (52814 * adc_value as u32 + 32768) / 65536 + 142;
    let battery_mv: u32 = adc_mv * 2;
    if battery_mv <= 3300 {
        0
    } else {
        let level: u32 = (battery_mv - 3300) * 100 / (4150 - 3350);
        if level >= 100 {
            100
        } else {
            level as u8
        }
    }
}

} // verus!
