//! Ramp rates and their encoding as one signed integer column.

use vstd::prelude::*;

verus! {

/// How fast a step drives the kiln towards its target temperature.
#[allow(clippy::upper_case_acronyms)]
#[derive(Debug, Clone, Copy, PartialEq, Eq, Structural)]
pub enum RampRate {
    /// As fast as possible: the element is fully on when heating and fully
    /// off when cooling.
    AFAP,
    /// A regulated rate in degrees per second.
    DegPerSec(u32),
}

/// The column value that stands for a ramp rate: `-1` for as fast as
/// possible, the rate itself otherwise.
pub open spec fn column_of(rate: RampRate) -> int {
    match rate {
        RampRate::AFAP => -1,
        RampRate::DegPerSec(degrees) => degrees as int,
    }
}

/// The ramp rate that a column value stands for, if it stands for one.
pub open spec fn rate_of(column: int) -> Option<RampRate> {
    if column == -1 {
        Some(RampRate::AFAP)
    } else if 0 <= column <= u32::MAX {
        Some(RampRate::DegPerSec(column as u32))
    } else {
        None
    }
}

impl RampRate {
    /// Encodes the rate for storage.
    pub fn to_column(self) -> (column: i64)
        ensures
            column == column_of(self),
    {
        match self {
            RampRate::AFAP => -1,
            RampRate::DegPerSec(degrees) => degrees as i64,
        }
    }

    /// Decodes a stored value; `None` when the value encodes no rate.
    pub fn from_column(column: i64) -> (rate: Option<RampRate>)
        ensures
            rate == rate_of(column as int),
    {
        if column == -1 {
            Some(RampRate::AFAP)
        } else if 0 <= column && column <= 0xffff_ffff {
            Some(RampRate::DegPerSec(column as u32))
        } else {
            None
        }
    }
}

} // verus!
