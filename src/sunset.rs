use vstd::prelude::*;

use crate::error::ScheduleError;
use crate::time::{zoned_at, zoned_at_spec, ZonedInstant};

verus! {

/// The sunset instant that an astronomical computation reported as
/// `sunset_epoch` seconds since the epoch, shown in zone `tz`. Zero is the
/// computation's way of saying that the sun does not set that day.
pub open spec fn sunset_spec(tz: Seq<char>, sunset_epoch: int) -> Result<ZonedInstant, ScheduleError> {
    if sunset_epoch == 0 {
        Err(ScheduleError::SunsetUndefined)
    } else {
        match zoned_at_spec(tz, sunset_epoch * 1000) {
            Some(z) => Ok(z),
            None => Err(ScheduleError::TimeOutOfRange),
        }
    }
}

/// Turns the sunset that an astronomical computation reported (seconds since
/// the epoch, zero where there is none) into an instant in zone `tz`.
pub fn get_sunset_time(tz: &str, sunset_epoch: i64) -> (r: Result<ZonedInstant, ScheduleError>)
    ensures
        r == sunset_spec(tz@, sunset_epoch as int),
        r matches Ok(z) ==> z.wf() && z.utc_millis == sunset_epoch * 1000,
{
    if sunset_epoch == 0 {
        return Err(ScheduleError::SunsetUndefined);
    }
    if sunset_epoch > i64::MAX / 1000 || sunset_epoch < i64::MIN / 1000 {
        return Err(ScheduleError::TimeOutOfRange);
    }
    match zoned_at(tz, sunset_epoch * 1000) {
        Some(z) => Ok(z),
        None => Err(ScheduleError::TimeOutOfRange),
    }
}

} // verus!
