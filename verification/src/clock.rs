//! The timestamp recorded when a catalog refresh succeeds.

use vstd::prelude::*;

use crate::outside::now_utc_parts;

verus! {

/// A UTC calendar timestamp with second precision, as persisted in the
/// configuration file.
#[derive(Debug, Clone, Copy, PartialEq, Eq, Structural)]
pub struct Timestamp {
    pub year: u16,
    pub month: u8,
    pub day: u8,
    pub hour: u8,
    pub minute: u8,
    pub second: u8,
}

impl Timestamp {
    /// The component ranges every stored timestamp satisfies.
    pub open spec fn wf(self) -> bool {
        &&& self.year <= 9999
        &&& 1 <= self.month <= 12
        &&& 1 <= self.day <= 31
        &&& self.hour < 24
        &&& self.minute < 60
        &&& self.second < 60
    }

    /// Build a timestamp from its components; `None` when a component is out
    /// of range.
    pub fn new(
        year: u16,
        month: u8,
        day: u8,
        hour: u8,
        minute: u8,
        second: u8,
    ) -> (r: Option<Timestamp>)
        ensures
            r is Some <==> (Timestamp { year, month, day, hour, minute, second }).wf(),
            r matches Some(t) ==> t == (Timestamp { year, month, day, hour, minute, second }),
    {
        if year <= 9999 && 1 <= month && month <= 12 && 1 <= day && day <= 31 && hour < 24
            && minute < 60 && second < 60 {
            Some(Timestamp { year, month, day, hour, minute, second })
        } else {
            None
        }
    }
}

/// The current UTC time; a clock reading before the year 0 is clamped to the
/// year 0 so that the result is always representable.
pub fn now_timestamp() -> (r: Timestamp)
    ensures
        r.wf(),
{
    let (y, mo, d, h, mi, s) = now_utc_parts();
    let year: u16 = if y < 0 {
        0
    } else {
        y as u16
    };
    Timestamp { year, month: mo, day: d, hour: h, minute: mi, second: s }
}

} // verus!
