//! Indicator-LED duty levels for the switch panel: a pure, stateless lookup
//! from output levels to LED duty cycles and a heat colour.

use vstd::prelude::*;

verus! {

/// The colour (red, green, blue) shown for a heat level.
pub open spec fn heat_color(level: u8) -> (u8, u8, u8) {
    if level == 0 {
        (0u8, 0u8, 0u8)  // off
    } else if level == 1 {
        (170u8, 50u8, 50u8)  // dull red
    } else if level == 2 {
        (255u8, 128u8, 0u8)  // orange
    } else if level == 3 {
        (255u8, 255u8, 0u8)  // bright yellow
    } else {
        (255u8, 255u8, 255u8)  // white
    }
}

/// The red, green and blue duty levels for a heat level.
pub fn color_for_heat_level(level: u8) -> (rgb: [u8; 3])
    ensures
        (rgb@[0], rgb@[1], rgb@[2]) == heat_color(level),
{
    match level {
        0 => [0, 0, 0],
        1 => [170, 50, 50],
        2 => [255, 128, 0],
        3 => [255, 255, 0],
        _ => [255, 255, 255],
    }
}

/// Provides LED duty levels for the panel's indicators.
#[derive(Default)]
pub struct IndicatorController {}

impl IndicatorController {
    /// Duty cycles for the panel's six LED channels: one on/off channel per
    /// output of the first three, then the heat colour of the third output.
    pub fn get_duty_cycles(&mut self, _new_ins: [bool; 3], new_outs: [u8; 4]) -> (duties: [u8; 6])
        ensures
            duties@[0] == (if new_outs@[0] != 0 { 255u8 } else { 0u8 }),
            duties@[1] == (if new_outs@[1] != 0 { 255u8 } else { 0u8 }),
            duties@[2] == (if new_outs@[2] != 0 { 255u8 } else { 0u8 }),
            (duties@[3], duties@[4], duties@[5]) == heat_color(new_outs@[2]),
    {
        let d0: u8 = if new_outs[0] != 0 { 255 } else { 0 };
        let d1: u8 = if new_outs[1] != 0 { 255 } else { 0 };
        let d2: u8 = if new_outs[2] != 0 { 255 } else { 0 };
        let rgb = color_for_heat_level(new_outs[2]);
        [d0, d1, d2, rgb[0], rgb[1], rgb[2]]
    }
}

} // verus!
