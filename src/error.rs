use vstd::prelude::*;

use crate::time::ZonedInstant;

verus! {

/// Everything that can go wrong while loading, resolving or querying a schedule.
#[derive(Clone, Copy, Debug, PartialEq, Eq, Structural)]
pub enum ScheduleError {
    /// The configured time zone is not in the tz database.
    UnknownTimezone,
    /// A schedule must hold at least one change point.
    EmptySchedule,
    /// The sun does not set on that day at that place.
    SunsetUndefined,
    /// An instant fell outside the range that the time arithmetic can represent.
    TimeOutOfRange,
    /// A wall-clock change point names an hour outside 0..=23 or a minute outside 0..=59.
    InvalidTimeOfDay { hour: i16, minute: i16 },
    /// The wall-clock time does not occur on that day in the time zone.
    NonexistentLocalTime { hour: i16, minute: i16 },
    /// The resolved point at `index` is later than the one after it.
    UnsortedSchedule { index: usize, before: ZonedInstant, after: ZonedInstant },
    /// The schedule has not been resolved for any day yet.
    NotResolved,
    /// The instant lies before the first resolved point or at or after the last one.
    InstantOutOfRange,
    /// The two points are out of order, or the instant is not between them.
    InvalidBlendInput,
    /// A colour change point lacks its mirek or its brightness.
    MissingColorFields,
}

} // verus!
