use vstd::prelude::*;

use crate::blend::sorted;
use crate::error::ScheduleError;
use crate::time::{
    time_of_day_spec, time_to_today_tz, zoned_at, zoned_at_spec, ZonedInstant, MILLIS_PER_DAY,
    MILLIS_PER_HOUR, MILLIS_PER_MINUTE,
};
use crate::types::{FromRefTime, ProcessedScheduleItem, RawScheduleItem};

verus! {

/// The signed offset from sunset that a sunset-anchored point names.
pub open spec fn sunset_delta_millis(raw: RawScheduleItem) -> int {
    raw.hour_or_zero() * MILLIS_PER_HOUR + raw.minute_or_zero() * MILLIS_PER_MINUTE
}

/// The instant of the change point `raw` on local day `today`, in zone `tz`,
/// where that day's sunset is `sunset`.
pub open spec fn resolve_item_spec(
    tz: Seq<char>,
    raw: RawScheduleItem,
    today: int,
    sunset: ZonedInstant,
) -> Result<ProcessedScheduleItem, ScheduleError> {
    let time = match raw.from {
        Some(FromRefTime::Sunset) => match zoned_at_spec(tz, sunset.utc_millis + sunset_delta_millis(raw)) {
            Some(z) => Ok(z),
            None => Err(ScheduleError::TimeOutOfRange),
        },
        None => time_of_day_spec(tz, today, raw.hour_or_zero() as int, raw.minute_or_zero() as int),
    };
    match time {
        Ok(z) => Ok(ProcessedScheduleItem { time: z, change: raw.change }),
        Err(e) => Err(e),
    }
}

/// Every change point of `raws` resolved in order; the first failure stops it.
pub open spec fn resolve_all(
    tz: Seq<char>,
    raws: Seq<RawScheduleItem>,
    today: int,
    sunset: ZonedInstant,
) -> Result<Seq<ProcessedScheduleItem>, ScheduleError>
    decreases raws.len(),
{
    if raws.len() == 0 {
        Ok(Seq::empty())
    } else {
        match resolve_all(tz, raws.drop_last(), today, sunset) {
            Err(e) => Err(e),
            Ok(done) => match resolve_item_spec(tz, raws.last(), today, sunset) {
                Err(e) => Err(e),
                Ok(p) => Ok(done.push(p)),
            },
        }
    }
}

/// The first index, from `i` on, whose point is later than the next one.
pub open spec fn first_unsorted_from(s: Seq<ProcessedScheduleItem>, i: int) -> Option<int>
    decreases s.len() - i,
{
    if i < 0 || i + 1 >= s.len() {
        None
    } else if s[i].time.utc_millis > s[i + 1].time.utc_millis {
        Some(i)
    } else {
        first_unsorted_from(s, i + 1)
    }
}

/// The verdict of the order check on `s`: the first out-of-order pair, if any.
pub open spec fn check_sorted_spec(s: Seq<ProcessedScheduleItem>) -> Result<(), ScheduleError> {
    match first_unsorted_from(s, 0) {
        Some(i) => Err(
            ScheduleError::UnsortedSchedule { index: i as usize, before: s[i].time, after: s[i + 1].time },
        ),
        None => Ok(()),
    }
}

/// The day's schedule: each change point resolved for the local day of
/// `reference`, then the first point repeated a day later, and the whole
/// checked for order.
pub open spec fn resolve_day_spec(
    tz: Seq<char>,
    raws: Seq<RawScheduleItem>,
    reference: ZonedInstant,
    sunset: ZonedInstant,
) -> Result<Seq<ProcessedScheduleItem>, ScheduleError> {
    match resolve_all(tz, raws, reference.local_day(), sunset) {
        Err(e) => Err(e),
        Ok(points) => if points.len() == 0 {
            Err(ScheduleError::EmptySchedule)
        } else {
            match zoned_at_spec(tz, points[0].time.utc_millis + MILLIS_PER_DAY) {
                None => Err(ScheduleError::TimeOutOfRange),
                Some(z) => {
                    let day = points.push(ProcessedScheduleItem { time: z, change: points[0].change });
                    match check_sorted_spec(day) {
                        Err(e) => Err(e),
                        Ok(_) => Ok(day),
                    }
                },
            }
        },
    }
}

proof fn lemma_resolve_all_len(tz: Seq<char>, raws: Seq<RawScheduleItem>, today: int, sunset: ZonedInstant)
    ensures
        resolve_all(tz, raws, today, sunset) matches Ok(s) ==> s.len() == raws.len(),
    decreases raws.len(),
{
    if raws.len() > 0 {
        lemma_resolve_all_len(tz, raws.drop_last(), today, sunset);
    }
}

/// Once a prefix of the points fails, every longer prefix fails the same way.
proof fn lemma_resolve_all_err_extends(
    tz: Seq<char>,
    raws: Seq<RawScheduleItem>,
    today: int,
    sunset: ZonedInstant,
    i: int,
    j: int,
)
    requires
        0 <= i <= j <= raws.len(),
        resolve_all(tz, raws.take(i), today, sunset) is Err,
    ensures
        resolve_all(tz, raws.take(j), today, sunset) == resolve_all(tz, raws.take(i), today, sunset),
    decreases j - i,
{
    if i < j {
        lemma_resolve_all_err_extends(tz, raws, today, sunset, i, j - 1);
        assert(raws.take(j).drop_last() =~= raws.take(j - 1));
    }
}

/// The order check passes exactly on sorted schedules.
pub proof fn lemma_check_sorted_ok(s: Seq<ProcessedScheduleItem>, k: int)
    requires
        0 <= k,
        first_unsorted_from(s, k) is None,
    ensures
        forall|i: int| k <= i < s.len() - 1 ==> #[trigger] s[i].time.utc_millis <= s[i + 1].time.utc_millis,
    decreases s.len() - k,
{
    if k + 1 < s.len() {
        lemma_check_sorted_ok(s, k + 1);
    }
}

/// The index that the order check reports is out of order.
proof fn lemma_first_unsorted(s: Seq<ProcessedScheduleItem>, k: int)
    ensures
        first_unsorted_from(s, k) matches Some(i) ==> k <= i && 0 <= i && i + 1 < s.len()
            && s[i].time.utc_millis > s[i + 1].time.utc_millis,
    decreases s.len() - k,
{
    if !(k < 0 || k + 1 >= s.len()) && s[k].time.utc_millis <= s[k + 1].time.utc_millis {
        lemma_first_unsorted(s, k + 1);
    }
}

impl ProcessedScheduleItem {
    /// Resolves the change point `raw` for local day `today` (days since
    /// 1970-01-01) in zone `tz`: a wall-clock point at that time of that day,
    /// a sunset-anchored point at `sunset` moved by its signed hours and
    /// minutes.
    pub fn from(tz: &str, raw: &RawScheduleItem, today: i64, sunset: &ZonedInstant) -> (r: Result<
        ProcessedScheduleItem,
        ScheduleError,
    >)
        ensures
            r == resolve_item_spec(tz@, *raw, today as int, *sunset),
            r matches Ok(p) ==> p.time.wf(),
    {
        let hour: i8 = match raw.hour {
            Some(h) => h,
            None => 0,
        };
        let minute: i8 = match raw.minute {
            Some(m) => m,
            None => 0,
        };
        let time = match raw.from {
            Some(FromRefTime::Sunset) => {
                let target: i128 = sunset.utc_millis as i128 + (hour as i128) * (MILLIS_PER_HOUR as i128)
                    + (minute as i128) * (MILLIS_PER_MINUTE as i128);
                if target < i64::MIN as i128 || target > i64::MAX as i128 {
                    return Err(ScheduleError::TimeOutOfRange);
                }
                match zoned_at(tz, target as i64) {
                    Some(z) => z,
                    None => return Err(ScheduleError::TimeOutOfRange),
                }
            },
            None => {
                if hour < 0 || minute < 0 {
                    return Err(ScheduleError::InvalidTimeOfDay { hour: hour as i16, minute: minute as i16 });
                }
                time_to_today_tz(tz, today, hour as u8, minute as u8)?
            },
        };
        Ok(ProcessedScheduleItem { time, change: raw.change })
    }
}

/// Checks that no point of `schedule` is later than the next one, and names
/// the first pair that is.
pub fn check_sorted(schedule: &[ProcessedScheduleItem]) -> (r: Result<(), ScheduleError>)
    ensures
        r == check_sorted_spec(schedule@),
        r is Ok <==> sorted(schedule@),
{
    proof {
        lemma_first_unsorted(schedule@, 0);
    }
    let n = schedule.len();
    if n == 0 {
        return Ok(());
    }
    let mut i: usize = 0;
    while i < n - 1
        invariant
            n == schedule@.len(),
            0 <= i <= n - 1,
            first_unsorted_from(schedule@, 0) == first_unsorted_from(schedule@, i as int),
        decreases n - i,
    {
        let before = schedule[i].time;
        let after = schedule[i + 1].time;
        if before.utc_millis > after.utc_millis {
            return Err(ScheduleError::UnsortedSchedule { index: i, before, after });
        }
        i = i + 1;
    }
    proof {
        lemma_check_sorted_ok(schedule@, 0);
    }
    Ok(())
}

/// Resolves the change points `raw` for the local day of `reference` in
/// zone `tz`, where that day's sunset is `sunset`; repeats the first point a
/// day later to close the day; and checks that the result is in order.
pub fn resolve_day(tz: &str, raw: &[RawScheduleItem], reference: &ZonedInstant, sunset: &ZonedInstant) -> (r: Result<
    Vec<ProcessedScheduleItem>,
    ScheduleError,
>)
    ensures
        match resolve_day_spec(tz@, raw@, *reference, *sunset) {
            Ok(day) => r matches Ok(s) && s@ == day,
            Err(e) => r matches Err(f) && f == e,
        },
        r matches Ok(s) ==> {
            &&& s.len() == raw.len() + 1
            &&& sorted(s@)
            &&& s@.last().change == s@[0].change
            &&& s@.last().time.utc_millis == s@[0].time.utc_millis + MILLIS_PER_DAY
        },
{
    let today = reference.local_day_number();
    let mut points: Vec<ProcessedScheduleItem> = Vec::new();
    let mut i: usize = 0;
    while i < raw.len()
        invariant
            0 <= i <= raw@.len(),
            today == reference.local_day(),
            resolve_all(tz@, raw@.take(i as int), today as int, *sunset) == Ok::<
                Seq<ProcessedScheduleItem>,
                ScheduleError,
            >(points@),
        decreases raw.len() - i,
    {
        assert(raw@.take(i + 1).drop_last() =~= raw@.take(i as int));
        assert(raw@.take(i + 1).last() == raw@[i as int]);
        match ProcessedScheduleItem::from(tz, &raw[i], today, sunset) {
            Ok(p) => points.push(p),
            Err(e) => {
                proof {
                    lemma_resolve_all_err_extends(tz@, raw@, today as int, *sunset, i + 1, raw@.len() as int);
                    assert(raw@.take(raw@.len() as int) =~= raw@);
                }
                return Err(e);
            },
        }
        i = i + 1;
    }
    assert(raw@.take(raw@.len() as int) =~= raw@);
    proof {
        lemma_resolve_all_len(tz@, raw@, today as int, *sunset);
    }
    if points.len() == 0 {
        return Err(ScheduleError::EmptySchedule);
    }
    let first = points[0];
    if first.time.utc_millis > i64::MAX - MILLIS_PER_DAY {
        return Err(ScheduleError::TimeOutOfRange);
    }
    let repeat_time = match zoned_at(tz, first.time.utc_millis + MILLIS_PER_DAY) {
        Some(z) => z,
        None => return Err(ScheduleError::TimeOutOfRange),
    };
    points.push(ProcessedScheduleItem { time: repeat_time, change: first.change });
    check_sorted(&points)?;
    Ok(points)
}

} // verus!
