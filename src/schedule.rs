use vstd::prelude::*;

use crate::blend::{action_at, first_cover_from, get_action_for_instant, get_surrounding_schedule_items, sorted};
use crate::error::ScheduleError;
use crate::resolve::{resolve_day, resolve_day_spec};
use crate::sunset::{get_sunset_time, sunset_spec};
use crate::time::{is_known_zone, is_zone_name, tz_now, ZonedInstant};
use crate::types::{ChangeAction, ProcessedScheduleItem, RawScheduleItem};

verus! {

/// The day's schedule that a refresh at `now` computes, where the
/// astronomical computation reported `sunset_epoch` for `now`'s local day.
pub open spec fn refresh_spec(
    tz: Seq<char>,
    raw: Seq<RawScheduleItem>,
    now: ZonedInstant,
    sunset_epoch: int,
) -> Result<Seq<ProcessedScheduleItem>, ScheduleError> {
    match sunset_spec(tz, sunset_epoch) {
        Err(e) => Err(e),
        Ok(sunset) => resolve_day_spec(tz, raw, now, sunset),
    }
}

/// A refresh is a function of the definition, the local day of the instant
/// it is made at, and the sunset reported for that day: refreshing twice on
/// one day yields the same resolved schedule, instant for instant.
pub proof fn lemma_refresh_same_day(
    tz: Seq<char>,
    raw: Seq<RawScheduleItem>,
    first: ZonedInstant,
    second: ZonedInstant,
    sunset_epoch: int,
)
    requires
        first.local_day() == second.local_day(),
    ensures
        refresh_spec(tz, raw, first, sunset_epoch) == refresh_spec(tz, raw, second, sunset_epoch),
{
}

/// An element-by-element copy.
fn copy_items<T: Copy>(v: &[T]) -> (r: Vec<T>)
    ensures
        r@ == v@,
{
    let mut r: Vec<T> = Vec::new();
    let mut i: usize = 0;
    while i < v.len()
        invariant
            0 <= i <= v@.len(),
            r@ == v@.take(i as int),
        decreases v.len() - i,
    {
        r.push(v[i]);
        i = i + 1;
        assert(r@ =~= v@.take(i as int));
    }
    assert(v@.take(v@.len() as int) =~= v@);
    r
}

/// The pair of resolved points that surrounded the instant of a snapshot.
#[derive(Clone, Copy, Debug, PartialEq, Eq, Structural)]
pub struct DebugSurrounding {
    pub first: ProcessedScheduleItem,
    pub last: ProcessedScheduleItem,
}

/// Everything that went into the answer at one instant.
#[derive(Clone, Debug)]
pub struct DebugInfo {
    pub just_updated: bool,
    pub tz: String,
    pub raw_schedule: Vec<RawScheduleItem>,
    pub processed_schedule: Vec<ProcessedScheduleItem>,
    pub now: ZonedInstant,
    pub surrounding_items: DebugSurrounding,
    pub change_action: ChangeAction,
}

/// A schedule definition together with the day it was last resolved for.
///
/// The resolved day is replaced only as a whole: a refresh that fails leaves
/// the previous one (or none) in place.
#[derive(Debug)]
pub struct Schedule {
    tz: String,
    raw_schedule: Vec<RawScheduleItem>,
    todays_schedule: Option<Vec<ProcessedScheduleItem>>,
}

impl Schedule {
    /// The name of the schedule's time zone.
    pub closed spec fn zone(&self) -> Seq<char> {
        self.tz@
    }

    /// The change points as configured.
    pub closed spec fn raw(&self) -> Seq<RawScheduleItem> {
        self.raw_schedule@
    }

    /// The resolved day, if any.
    pub closed spec fn cached(&self) -> Option<Seq<ProcessedScheduleItem>> {
        match &self.todays_schedule {
            Some(s) => Some(s@),
            None => None,
        }
    }

    /// A known zone, at least one change point, and a resolved day (where
    /// there is one) that closes the definition's points and is in order.
    pub open spec fn wf(&self) -> bool {
        &&& is_zone_name(self.zone())
        &&& self.raw().len() > 0
        &&& self.cached() matches Some(s) ==> s.len() == self.raw().len() + 1 && sorted(s)
    }

    /// The resolved day is missing, or its closing point is at or before `now`.
    pub open spec fn is_stale(&self, now: ZonedInstant) -> bool {
        match self.cached() {
            None => true,
            Some(s) => s.last().time.utc_millis <= now.utc_millis,
        }
    }

    /// A schedule for the zone named `tz` with the change points
    /// `raw_schedule`, not yet resolved for any day.
    pub fn new(tz: &str, raw_schedule: Vec<RawScheduleItem>) -> (r: Result<Schedule, ScheduleError>)
        ensures
            !is_zone_name(tz@) ==> r == Err::<Schedule, ScheduleError>(ScheduleError::UnknownTimezone),
            is_zone_name(tz@) && raw_schedule@.len() == 0 ==> r == Err::<Schedule, ScheduleError>(
                ScheduleError::EmptySchedule,
            ),
            is_zone_name(tz@) && raw_schedule@.len() > 0 ==> (r matches Ok(s) && s.wf() && s.zone() == tz@
                && s.raw() == raw_schedule@ && s.cached() is None),
    {
        if !is_known_zone(tz) {
            return Err(ScheduleError::UnknownTimezone);
        }
        if raw_schedule.len() == 0 {
            return Err(ScheduleError::EmptySchedule);
        }
        Ok(Schedule { tz: tz.to_owned(), raw_schedule, todays_schedule: None })
    }

    /// The name of the schedule's time zone.
    pub fn tz(&self) -> (r: &str)
        ensures
            r@ == self.zone(),
    {
        self.tz.as_str()
    }

    /// The change points as configured.
    pub fn raw_schedule(&self) -> (r: &[RawScheduleItem])
        ensures
            r@ == self.raw(),
    {
        self.raw_schedule.as_slice()
    }

    /// The resolved day, if any.
    pub fn todays_schedule(&self) -> (r: Option<&[ProcessedScheduleItem]>)
        ensures
            match self.cached() {
                Some(s) => r matches Some(v) && v@ == s,
                None => r is None,
            },
    {
        match &self.todays_schedule {
            Some(s) => Some(s.as_slice()),
            None => None,
        }
    }

    /// The current instant in the schedule's zone.
    pub fn now(&self) -> (r: Result<ZonedInstant, ScheduleError>)
        ensures
            r matches Ok(z) ==> z.wf(),
            r matches Err(e) ==> e == ScheduleError::TimeOutOfRange,
    {
        match tz_now(self.tz.as_str()) {
            Some(z) => Ok(z),
            None => Err(ScheduleError::TimeOutOfRange),
        }
    }

    /// The closing point of the resolved day, if any.
    fn latest_scheduled_time(&self) -> (r: Option<ZonedInstant>)
        requires
            self.wf(),
        ensures
            match self.cached() {
                Some(s) => r == Some(s.last().time),
                None => r is None,
            },
    {
        match &self.todays_schedule {
            None => None,
            Some(s) => Some(s[s.len() - 1].time),
        }
    }

    /// Resolves the schedule afresh for `now`'s local day, whatever is
    /// cached. `sunset_epoch` is what the astronomical computation reported
    /// for that day: the sunset in seconds since the epoch, zero where there
    /// is none. On failure nothing changes.
    pub fn set_today(&mut self, now: &ZonedInstant, sunset_epoch: i64) -> (r: Result<(), ScheduleError>)
        requires
            old(self).wf(),
        ensures
            final(self).wf(),
            final(self).zone() == old(self).zone(),
            final(self).raw() == old(self).raw(),
            match refresh_spec(old(self).zone(), old(self).raw(), *now, sunset_epoch as int) {
                Ok(day) => r is Ok && final(self).cached() == Some(day),
                Err(e) => r == Err::<(), ScheduleError>(e) && final(self).cached() == old(self).cached(),
            },
    {
        let sunset = get_sunset_time(self.tz.as_str(), sunset_epoch)?;
        let day = resolve_day(self.tz.as_str(), self.raw_schedule.as_slice(), now, &sunset)?;
        self.todays_schedule = Some(day);
        Ok(())
    }

    /// Resolves the schedule for `now`'s local day if nothing is resolved
    /// yet or the resolved day's closing point has been reached; says
    /// whether it did. `sunset_epoch` is as for `set_today`.
    pub fn try_update(&mut self, now: ZonedInstant, sunset_epoch: i64) -> (r: Result<bool, ScheduleError>)
        requires
            old(self).wf(),
        ensures
            final(self).wf(),
            final(self).zone() == old(self).zone(),
            final(self).raw() == old(self).raw(),
            !old(self).is_stale(now) ==> r == Ok::<bool, ScheduleError>(false) && final(self).cached()
                == old(self).cached(),
            old(self).is_stale(now) ==> match refresh_spec(old(self).zone(), old(self).raw(), now, sunset_epoch as int) {
                Ok(day) => r == Ok::<bool, ScheduleError>(true) && final(self).cached() == Some(day),
                Err(e) => r == Err::<bool, ScheduleError>(e) && final(self).cached() == old(self).cached(),
            },
    {
        let updated = match self.latest_scheduled_time() {
            None => {
                self.set_today(&now, sunset_epoch)?;
                true
            },
            Some(latest) => {
                if latest.utc_millis <= now.utc_millis {
                    self.set_today(&now, sunset_epoch)?;
                    true
                } else {
                    false
                }
            },
        };
        Ok(updated)
    }

    /// The pair of resolved points that surrounds `now`.
    pub fn get_surrounding_schedule_items(&self, now: ZonedInstant) -> (r: Result<
        (&ProcessedScheduleItem, &ProcessedScheduleItem),
        ScheduleError,
    >)
        ensures
            self.cached() is None ==> (r matches Err(e) && e == ScheduleError::NotResolved),
            self.cached() matches Some(s) ==> match first_cover_from(s, now.utc_millis as int, 0) {
                Some(i) => r matches Ok((a, b)) && *a == s[i] && *b == s[i + 1],
                None => r matches Err(e) && e == ScheduleError::InstantOutOfRange,
            },
    {
        match &self.todays_schedule {
            None => Err(ScheduleError::NotResolved),
            Some(s) => get_surrounding_schedule_items(s.as_slice(), now),
        }
    }

    /// What the light does at `now` under the resolved day.
    pub fn get_action_for_now(&self, now: &ZonedInstant) -> (r: Result<ChangeAction, ScheduleError>)
        ensures
            match self.cached() {
                None => r == Err::<ChangeAction, ScheduleError>(ScheduleError::NotResolved),
                Some(s) => r == action_at(s, *now),
            },
    {
        match &self.todays_schedule {
            None => Err(ScheduleError::NotResolved),
            Some(s) => get_action_for_instant(s.as_slice(), now),
        }
    }

    /// Brings the resolved day up to date for `now`, as `try_update` does,
    /// and reports everything that goes into the answer at `now`.
    pub fn get_debug_info(&mut self, now: ZonedInstant, sunset_epoch: i64) -> (r: Result<DebugInfo, ScheduleError>)
        requires
            old(self).wf(),
        ensures
            final(self).wf(),
            final(self).zone() == old(self).zone(),
            final(self).raw() == old(self).raw(),
            old(self).is_stale(now) ==> match refresh_spec(old(self).zone(), old(self).raw(), now, sunset_epoch as int) {
                Ok(day) => final(self).cached() == Some(day),
                Err(e) => r matches Err(f) && f == e && final(self).cached() == old(self).cached(),
            },
            !old(self).is_stale(now) ==> final(self).cached() == old(self).cached(),
            r matches Ok(d) ==> {
                let s = final(self).cached()->0;
                let i = first_cover_from(s, now.utc_millis as int, 0)->0;
                &&& final(self).cached() is Some
                &&& d.just_updated == old(self).is_stale(now)
                &&& d.tz@ == old(self).zone()
                &&& d.raw_schedule@ == old(self).raw()
                &&& d.processed_schedule@ == s
                &&& d.now == now
                &&& first_cover_from(s, now.utc_millis as int, 0) is Some
                &&& d.surrounding_items.first == s[i]
                &&& d.surrounding_items.last == s[i + 1]
                &&& Ok::<ChangeAction, ScheduleError>(d.change_action) == action_at(s, now)
            },
            !old(self).is_stale(now) || refresh_spec(old(self).zone(), old(self).raw(), now, sunset_epoch as int)
                is Ok ==> {
                let s = final(self).cached()->0;
                &&& final(self).cached() is Some
                &&& r is Ok <==> action_at(s, now) is Ok
                &&& r matches Err(e) ==> action_at(s, now) == Err::<ChangeAction, ScheduleError>(e)
            },
    {
        let just_updated = self.try_update(now, sunset_epoch)?;
        let processed_schedule = match &self.todays_schedule {
            Some(s) => copy_items(s.as_slice()),
            None => return Err(ScheduleError::NotResolved),
        };
        let (first, last) = self.get_surrounding_schedule_items(now)?;
        let surrounding_items = DebugSurrounding { first: *first, last: *last };
        let change_action = self.get_action_for_now(&now)?;
        Ok(
            DebugInfo {
                just_updated,
                tz: self.tz.clone(),
                raw_schedule: copy_items(self.raw_schedule.as_slice()),
                processed_schedule,
                now,
                surrounding_items,
                change_action,
            },
        )
    }
}

} // verus!
