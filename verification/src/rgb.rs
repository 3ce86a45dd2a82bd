//! Brightness of the tracker's RGB LEDs.
//!
//! A requested brightness (0 to 255) goes through a table that makes the
//! perceived brightness linear; LEDs wired active-low are driven with the
//! complement of the table value.

use vstd::prelude::*;

verus! {

/// Perceptually linear PWM duty for each brightness.
pub const PWM_LINEAR: [u8; 256] = [
    0, 1, 1, 1, 1, 1, 1, 1, 1, 1, 2, 2, 2, 2, 2, 2,
    2, 2, 2, 2, 2, 2, 2, 2, 2, 3, 3, 3, 3, 3, 3, 3,
    3, 4, 4, 4, 4, 4, 4, 4, 5, 5, 5, 5, 6, 6, 6, 6,
    7, 7, 7, 7, 8, 8, 9, 9, 9, 10, 10, 11, 11, 12, 12, 13,
    13, 14, 14, 15, 16, 16, 17, 18, 19, 19, 20, 21, 22, 23, 24, 25,
    26, 27, 28, 30, 31, 32, 34, 35, 36, 38, 39, 41, 43, 44, 46, 48,
    50, 52, 54, 56, 58, 60, 62, 64, 67, 69, 71, 74, 76, 79, 82, 84,
    87, 90, 93, 95, 98, 101, 104, 107, 110, 113, 116, 119, 122, 125, 128, 131,
    134, 137, 140, 143, 146, 149, 152, 155, 158, 161, 163, 166, 169, 172, 174, 177,
    180, 182, 185, 187, 189, 192, 194, 196, 198, 200, 202, 204, 206, 208, 210, 212,
    213, 215, 217, 218, 220, 221, 222, 224, 225, 226, 228, 229, 230, 231, 232, 233,
    234, 235, 236, 237, 237, 238, 239, 240, 240, 241, 242, 242, 243, 243, 244, 244,
    245, 245, 246, 246, 247, 247, 247, 248, 248, 249, 249, 249, 249, 250, 250, 250,
    250, 251, 251, 251, 251, 252, 252, 252, 252, 252, 252, 252, 253, 253, 253, 253,
    253, 253, 253, 253, 254, 254, 254, 254, 254, 254, 254, 254, 254, 254, 254, 254,
    254, 254, 254, 255, 255, 255, 255, 255, 255, 255, 255, 255, 255, 255, 255, 255,
];

/// The PWM duty for brightness `p`.
pub open spec fn duty_for(p: u8, inverted: bool) -> u16 {
    if inverted {
        (255 - PWM_LINEAR@[p as int]) as u16
    } else {
        PWM_LINEAR@[p as int] as u16
    }
}

/// The PWM duty (out of 255) that shows brightness `p`.
pub fn duty(p: u8, inverted: bool) -> (r: u16)
    ensures
        r == duty_for(p, inverted),
        r <= 255,
{
    let level = PWM_LINEAR[p as usize];
    if inverted {
        (u8::MAX - level) as u16
    } else {
        level as u16
    }
}

/// The duties of an LED wired active-high and one wired active-low add up to
/// the full period, whatever the brightness.
pub proof fn lemma_inverted_duty_complements(p: u8)
    ensures
        duty_for(p, true) + duty_for(p, false) == 255,
{
}

} // verus!
