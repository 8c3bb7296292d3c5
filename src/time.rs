use vstd::prelude::*;

use chrono::{Offset, TimeZone};

use crate::error::ScheduleError;

verus! {

pub const MILLIS_PER_MINUTE: i64 = 60_000;

pub const MILLIS_PER_HOUR: i64 = 3_600_000;

pub const MILLIS_PER_DAY: i64 = 86_400_000;

/// An instant, together with the UTC offset of the time zone it is shown in.
///
/// Instants are compared by `utc_millis` alone; the offset only says which
/// wall-clock time and which calendar day the instant falls on.
#[derive(Clone, Copy, Debug, PartialEq, Eq, Structural)]
pub struct ZonedInstant {
    /// Milliseconds since 1970-01-01T00:00:00Z.
    pub utc_millis: i64,
    /// Local time minus UTC, in seconds.
    pub offset_secs: i32,
}

impl ZonedInstant {
    /// The offsets that a time zone can have: strictly within one day.
    pub open spec fn wf(self) -> bool {
        -86_400 < self.offset_secs < 86_400
    }

    /// Local wall-clock time, as milliseconds since the local 1970-01-01T00:00.
    pub open spec fn local_millis(self) -> int {
        self.utc_millis + self.offset_secs * 1000
    }

    /// The local calendar day, counted in days since 1970-01-01.
    pub open spec fn local_day(self) -> int {
        self.local_millis() / (MILLIS_PER_DAY as int)
    }

    /// The local calendar day of this instant, in days since 1970-01-01.
    pub fn local_day_number(&self) -> (r: i64)
        ensures
            r == self.local_day(),
    {
        let local: i128 = self.utc_millis as i128 + (self.offset_secs as i128) * 1000;
        let day = local.checked_div_euclid(MILLIS_PER_DAY as i128);
        proof {
            let l = local as int;
            let d = MILLIS_PER_DAY as int;
            let k: int = 0x100_0000_0000;
            assert(-(d * k) <= l <= d * k);
            vstd::arithmetic::div_mod::lemma_div_is_ordered(l, d * k, d);
            vstd::arithmetic::div_mod::lemma_div_is_ordered(-(d * k), l, d);
            vstd::arithmetic::div_mod::lemma_div_multiples_vanish(k, d);
            vstd::arithmetic::div_mod::lemma_div_multiples_vanish(-k, d);
            assert(d * -k == -(d * k));
        }
        match day {
            Some(d) => d as i64,
            None => 0,
        }
    }
}

/// Whether `name` is the name of a zone in the tz database that chrono-tz holds.
pub uninterp spec fn is_zone_name(name: Seq<char>) -> bool;

/// The UTC offset, in seconds, in force in the zone named `zone` at the
/// instant `utc_millis`; `None` where chrono cannot represent that instant or
/// the zone is unknown.
pub uninterp spec fn zone_offset_at(zone: Seq<char>, utc_millis: int) -> Option<i32>;

/// The UTC offset, in seconds, under which the local wall-clock time
/// `local_millis` occurs earliest in the zone named `zone`; `None` where that
/// local time does not occur there (a gap) or cannot be represented.
pub uninterp spec fn zone_offset_for_local(zone: Seq<char>, local_millis: int) -> Option<i32>;

/// Relies on chrono-tz's `FromStr` for `Tz`: whether the name is one of its zones.
#[verifier::external_body]
pub(crate) fn is_known_zone(name: &str) -> (r: bool)
    ensures
        r == is_zone_name(name@),
{
    name.parse::<chrono_tz::Tz>().is_ok()
}

/// Relies on chrono's `TimeZone::timestamp_millis_opt`, for the chrono-tz
/// `Tz` that the name converts to: the offset in force at that instant, or
/// nothing where the name or the instant is out of range. Offsets pass
/// through `FixedOffset::east_opt`, which holds them strictly within a day.
#[verifier::external_body]
fn offset_at_utc(zone: &str, utc_millis: i64) -> (r: Option<i32>)
    ensures
        r == zone_offset_at(zone@, utc_millis as int),
        r matches Some(o) ==> -86_400 < o < 86_400,
{
    let tz = zone.parse::<chrono_tz::Tz>().ok()?;
    tz.timestamp_millis_opt(utc_millis).single().map(|t| t.offset().fix().local_minus_utc())
}

/// Relies on chrono's `TimeZone::offset_from_local_datetime`, for the
/// chrono-tz `Tz` that the name converts to, and on `MappedLocalTime::earliest`:
/// the offset under which that wall-clock time occurs first, or nothing in a
/// gap or out of range. Offsets pass through `FixedOffset::east_opt`, which
/// holds them strictly within a day.
#[verifier::external_body]
fn offset_at_local(zone: &str, local_millis: i64) -> (r: Option<i32>)
    ensures
        r == zone_offset_for_local(zone@, local_millis as int),
        r matches Some(o) ==> -86_400 < o < 86_400,
{
    let tz = zone.parse::<chrono_tz::Tz>().ok()?;
    let local = chrono::DateTime::from_timestamp_millis(local_millis)?.naive_utc();
    tz.offset_from_local_datetime(&local).earliest().map(|o| o.fix().local_minus_utc())
}

/// Relies on chrono's `Utc::now`: the current instant in milliseconds since
/// the epoch. Nothing is known of its value.
#[verifier::external_body]
fn utc_now_millis() -> (r: i64) {
    chrono::Utc::now().timestamp_millis()
}

pub open spec fn fits_i64(x: int) -> bool {
    i64::MIN <= x <= i64::MAX
}

/// The instant `utc_millis`, shown in the zone named `zone`.
pub open spec fn zoned_at_spec(zone: Seq<char>, utc_millis: int) -> Option<ZonedInstant> {
    if !fits_i64(utc_millis) {
        None
    } else {
        match zone_offset_at(zone, utc_millis) {
            Some(o) => Some(ZonedInstant { utc_millis: utc_millis as i64, offset_secs: o }),
            None => None,
        }
    }
}

/// The earliest instant at which the zone's clocks read `local_millis`.
pub open spec fn zoned_from_local_spec(zone: Seq<char>, local_millis: int) -> Option<ZonedInstant> {
    if !fits_i64(local_millis) {
        None
    } else {
        match zone_offset_for_local(zone, local_millis) {
            Some(o) => {
                let utc = local_millis - o * 1000;
                if fits_i64(utc) {
                    Some(ZonedInstant { utc_millis: utc as i64, offset_secs: o })
                } else {
                    None
                }
            },
            None => None,
        }
    }
}

/// The instant `utc_millis`, shown in the zone named `tz`.
pub fn zoned_at(tz: &str, utc_millis: i64) -> (r: Option<ZonedInstant>)
    ensures
        r == zoned_at_spec(tz@, utc_millis as int),
        r matches Some(z) ==> z.wf() && z.utc_millis == utc_millis,
{
    match offset_at_utc(tz, utc_millis) {
        Some(o) => Some(ZonedInstant { utc_millis, offset_secs: o }),
        None => None,
    }
}

/// The earliest instant at which the clocks of the zone named `tz` read
/// `local_millis`.
pub fn zoned_from_local(tz: &str, local_millis: i64) -> (r: Option<ZonedInstant>)
    ensures
        r == zoned_from_local_spec(tz@, local_millis as int),
        r matches Some(z) ==> z.wf() && z.local_millis() == local_millis,
{
    match offset_at_local(tz, local_millis) {
        Some(o) => {
            let utc: i128 = local_millis as i128 - (o as i128) * 1000;
            if i64::MIN as i128 <= utc && utc <= i64::MAX as i128 {
                Some(ZonedInstant { utc_millis: utc as i64, offset_secs: o })
            } else {
                None
            }
        },
        None => None,
    }
}

/// The current instant in the zone named `tz`; `None` only where the zone
/// gives no offset for it.
pub fn tz_now(tz: &str) -> (r: Option<ZonedInstant>)
    ensures
        r matches Some(z) ==> z.wf() && zone_offset_at(tz@, z.utc_millis as int) == Some(z.offset_secs),
{
    let now = utc_now_millis();
    zoned_at(tz, now)
}

/// The wall-clock time `hour:minute` on local day `today`, as milliseconds
/// since the local epoch.
pub open spec fn local_time_of_day(today: int, hour: int, minute: int) -> int {
    today * MILLIS_PER_DAY + hour * MILLIS_PER_HOUR + minute * MILLIS_PER_MINUTE
}

/// The instant at which the clocks of zone `tz` read `hour:minute` on local
/// day `today` (the earliest, where they read it twice).
pub open spec fn time_of_day_spec(tz: Seq<char>, today: int, hour: int, minute: int) -> Result<
    ZonedInstant,
    ScheduleError,
> {
    if !(0 <= hour < 24 && 0 <= minute < 60) {
        Err(ScheduleError::InvalidTimeOfDay { hour: hour as i16, minute: minute as i16 })
    } else {
        match zoned_from_local_spec(tz, local_time_of_day(today, hour, minute)) {
            Some(z) => Ok(z),
            None => Err(ScheduleError::NonexistentLocalTime { hour: hour as i16, minute: minute as i16 }),
        }
    }
}

/// The instant at which the clocks of zone `tz` read `hour:minute` on local
/// day `today` (days since 1970-01-01); where they read it twice, the
/// earlier of the two.
pub fn time_to_today_tz(tz: &str, today: i64, hour: u8, minute: u8) -> (r: Result<ZonedInstant, ScheduleError>)
    ensures
        r == time_of_day_spec(tz@, today as int, hour as int, minute as int),
        r matches Ok(z) ==> z.wf() && z.local_millis() == local_time_of_day(today as int, hour as int, minute as int),
{
    if hour >= 24 || minute >= 60 {
        return Err(ScheduleError::InvalidTimeOfDay { hour: hour as i16, minute: minute as i16 });
    }
    proof {
        let t = today as int;
        assert(-0x8000_0000_0000_0000 * 86_400_000 <= t * 86_400_000 <= 0x8000_0000_0000_0000 * 86_400_000)
            by (nonlinear_arith)
            requires
                -0x8000_0000_0000_0000 <= t < 0x8000_0000_0000_0000,
        ;
        assert(0 <= (hour as int) * 3_600_000 <= 255 * 3_600_000) by (nonlinear_arith)
            requires
                0 <= hour < 256,
        ;
        assert(0 <= (minute as int) * 60_000 <= 255 * 60_000) by (nonlinear_arith)
            requires
                0 <= minute < 256,
        ;
    }
    let local: i128 = (today as i128) * (MILLIS_PER_DAY as i128) + (hour as i128) * (MILLIS_PER_HOUR as i128)
        + (minute as i128) * (MILLIS_PER_MINUTE as i128);
    if local < i64::MIN as i128 || local > i64::MAX as i128 {
        return Err(ScheduleError::NonexistentLocalTime { hour: hour as i16, minute: minute as i16 });
    }
    match zoned_from_local(tz, local as i64) {
        Some(z) => Ok(z),
        None => Err(ScheduleError::NonexistentLocalTime { hour: hour as i16, minute: minute as i16 }),
    }
}

} // verus!
