//! How a usage percentage is taken: as a mood, and as the girl's outfit.
//!
//! A percentage is given as a whole number, rounded down: every threshold is a whole number, so
//! nothing more of it is ever looked at.

use vstd::prelude::*;

verus! {

/// How close usage is to its limit.
#[derive(Clone, Copy, Debug, PartialEq, Eq, Structural)]
pub enum Band {
    Low,
    Soft,
    Urgent,
}

/// The band of a percentage.
pub open spec fn band_of(percent: int) -> Band {
    if percent >= 90 {
        Band::Urgent
    } else if percent >= 80 {
        Band::Soft
    } else {
        Band::Low
    }
}

pub fn band_for(percent: i32) -> (band: Band)
    ensures
        band == band_of(percent as int),
{
    if percent >= 90 {
        Band::Urgent
    } else if percent >= 80 {
        Band::Soft
    } else {
        Band::Low
    }
}

/// How many layers the girl has shed: none when fully dressed, three in swimwear.
pub open spec fn stage_of(percent: int) -> int {
    if percent >= 90 {
        3
    } else if percent >= 75 {
        2
    } else if percent >= 60 {
        1
    } else {
        0
    }
}

pub fn girl_stage(percent: i32) -> (stage: u8)
    ensures
        stage == stage_of(percent as int),
{
    if percent >= 90 {
        3
    } else if percent >= 75 {
        2
    } else if percent >= 60 {
        1
    } else {
        0
    }
}

/// How severe a band is.
pub open spec fn severity(band: Band) -> int {
    match band {
        Band::Low => 0,
        Band::Soft => 1,
        Band::Urgent => 2,
    }
}

/// Higher usage is never taken more lightly, and never puts a layer back on.
pub proof fn law_more_usage_is_no_milder(a: int, b: int)
    requires
        a <= b,
    ensures
        severity(band_of(a)) <= severity(band_of(b)),
        stage_of(a) <= stage_of(b),
        0 <= stage_of(a) <= 3,
{
}

/// Usage is taken lightly below 80 percent, worries the characters from 80 on and alarms them from 90
/// on. The girl sheds a layer at 60, 75 and 90 percent.
pub proof fn law_usage_has_its_thresholds(percent: int)
    ensures
        band_of(percent) == Band::Low <==> percent < 80,
        band_of(percent) == Band::Soft <==> 80 <= percent < 90,
        band_of(percent) == Band::Urgent <==> 90 <= percent,
        stage_of(percent) == 0 <==> percent < 60,
        stage_of(percent) == 1 <==> 60 <= percent < 75,
        stage_of(percent) == 2 <==> 75 <= percent < 90,
        stage_of(percent) == 3 <==> 90 <= percent,
{
}

} // verus!
