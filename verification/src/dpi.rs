//! The whole-number scale of a display.

use vstd::prelude::*;

verus! {

/// The scale for a resolution in dots per inch, where zero stands for the usual 96: the nearest
/// whole multiple of 96, and at least 1. A resolution too large for an `i32` counts as none.
pub open spec fn scale_of(dpi: int) -> int {
    if dpi == 0 || dpi > i32::MAX || dpi < 48 {
        1
    } else {
        (dpi + 48) / 96
    }
}

pub fn scale_for_dpi(dpi: u32) -> (u: i32)
    requires
        dpi <= i32::MAX - 48 || dpi > i32::MAX,
    ensures
        u == scale_of(dpi as int),
        u >= 1,
{
    let dpi: u32 = if dpi == 0 {
        96
    } else {
        dpi
    };
    if dpi > i32::MAX as u32 {
        return 1;
    }
    let u: i32 = (dpi as i32 + 48) / 96;
    if u > 1 {
        u
    } else {
        1
    }
}

/// The scale is the nearest one to the display's true scale, and grows with the resolution.
pub proof fn law_scale_is_nearest(dpi: int, finer: int)
    requires
        48 <= dpi <= finer <= i32::MAX,
    ensures
        -48 <= dpi - 96 * scale_of(dpi) < 48,
        scale_of(dpi) <= scale_of(finer),
{
}

/// Where a display is too coarse for its nearest scale, or gives no usable resolution, it has the
/// scale 1.
pub proof fn law_scale_is_at_least_one(dpi: int)
    ensures
        scale_of(dpi) >= 1,
        dpi < 144 || dpi > i32::MAX ==> scale_of(dpi) == 1,
        144 <= dpi <= i32::MAX ==> scale_of(dpi) >= 2,
{
}

} // verus!
