use vstd::prelude::*;

use crate::error::ScheduleError;
use crate::time::ZonedInstant;
use crate::types::{Action, ChangeAction, ChangeItem, ProcessedScheduleItem};

verus! {

/// The value a linear fade from `x` at `ta` to `y` at `tb` has reached at `t`,
/// truncated toward zero (all the values involved are non-negative). Where
/// the two points share an instant the fade has not begun, and `x` stands.
pub open spec fn interpolate(x: int, y: int, ta: int, tb: int, t: int) -> int {
    if tb <= ta {
        x
    } else {
        (x * (tb - t) + y * (t - ta)) / (tb - ta)
    }
}

/// The colour that a change carries, where it has both fields.
pub open spec fn color_of(c: ChangeItem) -> Option<(u16, u8)> {
    match (c.mirek, c.brightness) {
        (Some(m), Some(b)) => Some((m, b)),
        _ => None,
    }
}

/// What the light does at `now`, between the resolved points `a` and `b`.
pub open spec fn blend_spec(
    a: ProcessedScheduleItem,
    b: ProcessedScheduleItem,
    now: ZonedInstant,
) -> Result<ChangeAction, ScheduleError> {
    let ta = a.time.utc_millis as int;
    let tb = b.time.utc_millis as int;
    let t = now.utc_millis as int;
    if ta > tb || t < ta || tb < t {
        Err(ScheduleError::InvalidBlendInput)
    } else {
        match a.change.action {
            Action::Stop => Ok(ChangeAction::NoChange),
            Action::Color => match color_of(a.change) {
                None => Err(ScheduleError::MissingColorFields),
                Some((am, ab)) => match b.change.action {
                    Action::Stop => Ok(ChangeAction::Color { mirek: am, brightness: ab }),
                    Action::Color => match color_of(b.change) {
                        None => Err(ScheduleError::MissingColorFields),
                        Some((bm, bb)) => Ok(
                            ChangeAction::Color {
                                mirek: interpolate(am as int, bm as int, ta, tb, t) as u16,
                                brightness: interpolate(ab as int, bb as int, ta, tb, t) as u8,
                            },
                        ),
                    },
                },
            },
        }
    }
}

/// The fade between two values stays between them.
pub proof fn lemma_interpolate_between(x: int, y: int, ta: int, tb: int, t: int)
    requires
        0 <= x,
        0 <= y,
        ta <= t <= tb,
    ensures
        x <= y ==> x <= interpolate(x, y, ta, tb, t) <= y,
        y <= x ==> y <= interpolate(x, y, ta, tb, t) <= x,
{
    if ta < tb {
        let d = tb - ta;
        let n = x * (tb - t) + y * (t - ta);
        let lo = if x <= y { x } else { y };
        let hi = if x <= y { y } else { x };
        assert(lo * d <= n <= hi * d) by (nonlinear_arith)
            requires
                n == x * (tb - t) + y * (t - ta),
                d == tb - ta,
                ta <= t <= tb,
                lo <= x <= hi,
                lo <= y <= hi,
        ;
        vstd::arithmetic::div_mod::lemma_div_is_ordered(lo * d, n, d);
        vstd::arithmetic::div_mod::lemma_div_is_ordered(n, hi * d, d);
        vstd::arithmetic::div_mod::lemma_div_multiples_vanish(lo, d);
        vstd::arithmetic::div_mod::lemma_div_multiples_vanish(hi, d);
        assert(d * lo == lo * d && d * hi == hi * d) by (nonlinear_arith);
    }
}

/// The fade of `x` toward `y` over `[ta, tb]`, at `t`, truncated toward zero.
fn fraction(x: u16, y: u16, ta: i64, tb: i64, t: i64) -> (r: u16)
    requires
        ta <= t <= tb,
    ensures
        r == interpolate(x as int, y as int, ta as int, tb as int, t as int),
{
    proof {
        lemma_interpolate_between(x as int, y as int, ta as int, tb as int, t as int);
    }
    if tb <= ta {
        return x;
    }
    let span: u128 = (tb as i128 - ta as i128) as u128;
    let before: u128 = (tb as i128 - t as i128) as u128;
    let after: u128 = (t as i128 - ta as i128) as u128;
    proof {
        assert((x as int) * (before as int) <= 0xffff * 0x1_0000_0000_0000_0000) by (nonlinear_arith)
            requires
                0 <= x <= 0xffff,
                0 <= before <= 0x1_0000_0000_0000_0000,
        ;
        assert((y as int) * (after as int) <= 0xffff * 0x1_0000_0000_0000_0000) by (nonlinear_arith)
            requires
                0 <= y <= 0xffff,
                0 <= after <= 0x1_0000_0000_0000_0000,
        ;
        assert(0 <= (x as int) * (before as int)) by (nonlinear_arith)
            requires
                0 <= x,
                0 <= before,
        ;
        assert(0 <= (y as int) * (after as int)) by (nonlinear_arith)
            requires
                0 <= y,
                0 <= after,
        ;
    }
    let total: u128 = (x as u128) * before + (y as u128) * after;
    (total / span) as u16
}

/// What the light does at `now`, between the resolved points `a` and `b`.
///
/// A stop point leaves the light alone until the next point. A colour point
/// followed by a stop keeps its colour. Between two colour points mirek and
/// brightness fade linearly with the time elapsed, truncated toward zero.
pub fn blend_actions(a: &ProcessedScheduleItem, b: &ProcessedScheduleItem, now: &ZonedInstant) -> (r: Result<
    ChangeAction,
    ScheduleError,
>)
    ensures
        r == blend_spec(*a, *b, *now),
{
    if a.time.utc_millis > b.time.utc_millis {
        return Err(ScheduleError::InvalidBlendInput);
    } else if now.utc_millis < a.time.utc_millis {
        return Err(ScheduleError::InvalidBlendInput);
    } else if b.time.utc_millis < now.utc_millis {
        return Err(ScheduleError::InvalidBlendInput);
    }
    match a.change.action {
        Action::Stop => Ok(ChangeAction::NoChange),
        Action::Color => {
            let (a_mirek, a_brightness) = match (a.change.mirek, a.change.brightness) {
                (Some(m), Some(br)) => (m, br),
                _ => return Err(ScheduleError::MissingColorFields),
            };
            match b.change.action {
                Action::Stop => Ok(ChangeAction::Color { mirek: a_mirek, brightness: a_brightness }),
                Action::Color => {
                    let (b_mirek, b_brightness) = match (b.change.mirek, b.change.brightness) {
                        (Some(m), Some(br)) => (m, br),
                        _ => return Err(ScheduleError::MissingColorFields),
                    };
                    let ta = a.time.utc_millis;
                    let tb = b.time.utc_millis;
                    let t = now.utc_millis;
                    let mirek = fraction(a_mirek, b_mirek, ta, tb, t);
                    let brightness = fraction(a_brightness as u16, b_brightness as u16, ta, tb, t);
                    proof {
                        lemma_interpolate_between(a_brightness as int, b_brightness as int, ta as int, tb as int, t as int);
                    }
                    Ok(ChangeAction::Color { mirek, brightness: brightness as u8 })
                },
            }
        },
    }
}

/// Every resolved point is at or before the next one.
pub open spec fn sorted(s: Seq<ProcessedScheduleItem>) -> bool {
    forall|i: int| 0 <= i < s.len() - 1 ==> #[trigger] s[i].time.utc_millis <= s[i + 1].time.utc_millis
}

/// The pair `(s[i], s[i + 1])` surrounds the instant `t`: `s[i]` is at or
/// before it and `s[i + 1]` after it.
pub open spec fn covers(s: Seq<ProcessedScheduleItem>, i: int, t: int) -> bool {
    &&& 0 <= i
    &&& i + 1 < s.len()
    &&& s[i].time.utc_millis <= t
    &&& t < s[i + 1].time.utc_millis
}

/// The first index, from `i` on, whose pair surrounds `t`.
pub open spec fn first_cover_from(s: Seq<ProcessedScheduleItem>, t: int, i: int) -> Option<int>
    decreases s.len() - i,
{
    if i < 0 || i + 1 >= s.len() {
        None
    } else if covers(s, i, t) {
        Some(i)
    } else {
        first_cover_from(s, t, i + 1)
    }
}

/// The index that the search finds does surround the instant.
pub proof fn lemma_first_cover_covers(s: Seq<ProcessedScheduleItem>, t: int, k: int)
    ensures
        first_cover_from(s, t, k) matches Some(i) ==> covers(s, i, t) && k <= i,
    decreases s.len() - k,
{
    if !(k < 0 || k + 1 >= s.len()) && !covers(s, k, t) {
        lemma_first_cover_covers(s, t, k + 1);
    }
}

/// What the light does at `now` under the resolved schedule `s`.
pub open spec fn action_at(s: Seq<ProcessedScheduleItem>, now: ZonedInstant) -> Result<ChangeAction, ScheduleError> {
    match first_cover_from(s, now.utc_millis as int, 0) {
        Some(i) => blend_spec(s[i], s[i + 1], now),
        None => Err(ScheduleError::InstantOutOfRange),
    }
}

/// The index of the first pair of adjacent points of `schedule` that
/// surrounds the instant `t`.
fn surrounding_index(schedule: &[ProcessedScheduleItem], t: i64) -> (r: Option<usize>)
    ensures
        r matches Some(i) ==> first_cover_from(schedule@, t as int, 0) == Some(i as int),
        r is None ==> first_cover_from(schedule@, t as int, 0) is None,
{
    let n = schedule.len();
    if n == 0 {
        return None;
    }
    let mut i: usize = 0;
    while i < n - 1
        invariant
            n == schedule@.len(),
            0 <= i <= n - 1,
            first_cover_from(schedule@, t as int, 0) == first_cover_from(schedule@, t as int, i as int),
        decreases n - i,
    {
        if schedule[i].time.utc_millis <= t && t < schedule[i + 1].time.utc_millis {
            return Some(i);
        }
        i = i + 1;
    }
    None
}

/// The first pair of adjacent points of `schedule` that surrounds `now`:
/// the first point at or before it, the second after it.
pub fn get_surrounding_schedule_items(schedule: &[ProcessedScheduleItem], now: ZonedInstant) -> (r: Result<
    (&ProcessedScheduleItem, &ProcessedScheduleItem),
    ScheduleError,
>)
    ensures
        match first_cover_from(schedule@, now.utc_millis as int, 0) {
            Some(i) => r matches Ok((a, b)) && *a == schedule@[i] && *b == schedule@[i + 1],
            None => r matches Err(e) && e == ScheduleError::InstantOutOfRange,
        },
{
    proof {
        lemma_first_cover_covers(schedule@, now.utc_millis as int, 0);
    }
    match surrounding_index(schedule, now.utc_millis) {
        Some(i) => Ok((&schedule[i], &schedule[i + 1])),
        None => Err(ScheduleError::InstantOutOfRange),
    }
}

/// What the light does at `now` under the resolved schedule: the blend of
/// the pair of points that surrounds it.
pub fn get_action_for_instant(schedule: &[ProcessedScheduleItem], now: &ZonedInstant) -> (r: Result<
    ChangeAction,
    ScheduleError,
>)
    ensures
        r == action_at(schedule@, *now),
{
    let (a, b) = get_surrounding_schedule_items(schedule, *now)?;
    blend_actions(a, b, now)
}

/// The distance from `x` to zero.
pub open spec fn magnitude(x: int) -> int {
    if x < 0 {
        -x
    } else {
        x
    }
}

/// `v` lies within the fade's slope of `target`: where a fade between
/// `target` and `other` spans `span` and the instant is `dist` away from
/// `target`'s end, `v` is less than `|other - target| * dist / span` plus
/// one unit of truncation away from `target`.
pub open spec fn within_fade(v: int, target: int, other: int, dist: int, span: int) -> bool {
    magnitude(v - target) * span < magnitude(other - target) * dist + span
}

/// Near its start a fade is near its first value, near its end near its last.
pub proof fn lemma_interpolate_near_ends(x: int, y: int, ta: int, tb: int, t: int)
    requires
        ta < tb,
        ta <= t <= tb,
    ensures
        within_fade(interpolate(x, y, ta, tb, t), x, y, t - ta, tb - ta),
        within_fade(interpolate(x, y, ta, tb, t), y, x, tb - t, tb - ta),
{
    let d = tb - ta;
    let n = x * (tb - t) + y * (t - ta);
    let q = n / d;
    vstd::arithmetic::div_mod::lemma_fundamental_div_mod(n, d);
    vstd::arithmetic::div_mod::lemma_mod_bound(n, d);
    let r = n % d;
    assert(d * (q - x) == (y - x) * (t - ta) - r) by (nonlinear_arith)
        requires
            n == d * q + r,
            n == x * (tb - t) + y * (t - ta),
            d == tb - ta,
    ;
    assert(d * (q - y) == (x - y) * (tb - t) - r) by (nonlinear_arith)
        requires
            n == d * q + r,
            n == x * (tb - t) + y * (t - ta),
            d == tb - ta,
    ;
    assert(magnitude(q - x) * d < magnitude(y - x) * (t - ta) + d) by (nonlinear_arith)
        requires
            d * (q - x) == (y - x) * (t - ta) - r,
            0 <= r < d,
            0 <= t - ta,
            magnitude(q - x) == (if q - x < 0 { -(q - x) } else { q - x }),
            magnitude(y - x) == (if y - x < 0 { -(y - x) } else { y - x }),
    ;
    assert(magnitude(q - y) * d < magnitude(x - y) * (tb - t) + d) by (nonlinear_arith)
        requires
            d * (q - y) == (x - y) * (tb - t) - r,
            0 <= r < d,
            0 <= tb - t,
            magnitude(q - y) == (if q - y < 0 { -(q - y) } else { q - y }),
            magnitude(x - y) == (if x - y < 0 { -(x - y) } else { x - y }),
    ;
}

/// Points of a sorted schedule are in order however far apart.
pub proof fn lemma_sorted_ordered(s: Seq<ProcessedScheduleItem>, a: int, b: int)
    requires
        sorted(s),
        0 <= a <= b < s.len(),
    ensures
        s[a].time.utc_millis <= s[b].time.utc_millis,
    decreases b - a,
{
    if a < b {
        lemma_sorted_ordered(s, a, b - 1);
    }
}

/// In a sorted schedule the search finds the pair that surrounds the instant.
pub proof fn lemma_sorted_cover_found(s: Seq<ProcessedScheduleItem>, t: int, j: int, k: int)
    requires
        sorted(s),
        covers(s, j, t),
        0 <= k <= j,
    ensures
        first_cover_from(s, t, k) == Some(j),
    decreases j - k,
{
    if k < j {
        lemma_sorted_ordered(s, k + 1, j);
        assert(!covers(s, k, t));
        lemma_sorted_cover_found(s, t, j, k + 1);
    }
}

/// A colour point blended with what follows shows its own colour at its own
/// instant; a fade between two colour points shows the second one's colour
/// at the second one's instant.
pub proof fn lemma_blend_at_endpoints(a: ProcessedScheduleItem, b: ProcessedScheduleItem)
    requires
        a.change.action == Action::Color,
        color_of(a.change) is Some,
        b.change.action == Action::Stop || color_of(b.change) is Some,
        a.time.utc_millis <= b.time.utc_millis,
    ensures
        blend_spec(a, b, a.time) == Ok::<ChangeAction, ScheduleError>(
            ChangeAction::Color { mirek: a.change.mirek->0, brightness: a.change.brightness->0 },
        ),
        a.time.utc_millis < b.time.utc_millis && b.change.action == Action::Color ==> blend_spec(a, b, b.time)
            == Ok::<ChangeAction, ScheduleError>(
            ChangeAction::Color { mirek: b.change.mirek->0, brightness: b.change.brightness->0 },
        ),
{
    let ta = a.time.utc_millis as int;
    let tb = b.time.utc_millis as int;
    if ta < tb {
        let d = tb - ta;
        let am = a.change.mirek->0 as int;
        let ab = a.change.brightness->0 as int;
        assert(am * (tb - ta) + 0 * (ta - ta) == d * am) by (nonlinear_arith)
            requires
                d == tb - ta,
        ;
        assert(ab * (tb - ta) + 0 * (ta - ta) == d * ab) by (nonlinear_arith)
            requires
                d == tb - ta,
        ;
        vstd::arithmetic::div_mod::lemma_div_multiples_vanish(am, d);
        vstd::arithmetic::div_mod::lemma_div_multiples_vanish(ab, d);
        if b.change.action == Action::Color {
            let bm = b.change.mirek->0 as int;
            let bb = b.change.brightness->0 as int;
            assert(am * (tb - tb) + bm * (tb - ta) == d * bm) by (nonlinear_arith)
                requires
                    d == tb - ta,
            ;
            assert(ab * (tb - tb) + bb * (tb - ta) == d * bb) by (nonlinear_arith)
                requires
                    d == tb - ta,
            ;
            assert(am * (tb - ta) + bm * (ta - ta) == d * am) by (nonlinear_arith)
                requires
                    d == tb - ta,
            ;
            assert(ab * (tb - ta) + bb * (ta - ta) == d * ab) by (nonlinear_arith)
                requires
                    d == tb - ta,
            ;
            vstd::arithmetic::div_mod::lemma_div_multiples_vanish(bm, d);
            vstd::arithmetic::div_mod::lemma_div_multiples_vanish(bb, d);
        }
    }
}

/// Across a colour point between two colour points, the light's colour
/// changes without a jump: on either side of the point, mirek and brightness
/// lie within the adjacent fade's slope (times the distance to the point)
/// plus one unit of truncation of the point's own values, and at the point
/// itself they are exactly its values.
pub proof fn lemma_action_continuous_at_color_point(s: Seq<ProcessedScheduleItem>, i: int, now: ZonedInstant)
    requires
        sorted(s),
        0 < i < s.len() - 1,
        s[i - 1].change.action == Action::Color,
        s[i].change.action == Action::Color,
        s[i + 1].change.action == Action::Color,
        color_of(s[i - 1].change) is Some,
        color_of(s[i].change) is Some,
        color_of(s[i + 1].change) is Some,
        s[i - 1].time.utc_millis <= now.utc_millis < s[i + 1].time.utc_millis,
    ensures
        action_at(s, now) matches Ok(ChangeAction::Color { mirek, brightness }) && {
            let t = now.utc_millis as int;
            let tp = s[i - 1].time.utc_millis as int;
            let ti = s[i].time.utc_millis as int;
            let tn = s[i + 1].time.utc_millis as int;
            let (pm, pb) = color_of(s[i - 1].change)->0;
            let (im, ib) = color_of(s[i].change)->0;
            let (nm, nb) = color_of(s[i + 1].change)->0;
            &&& t < ti ==> within_fade(mirek as int, im as int, pm as int, ti - t, ti - tp) && within_fade(
                brightness as int,
                ib as int,
                pb as int,
                ti - t,
                ti - tp,
            )
            &&& ti <= t ==> within_fade(mirek as int, im as int, nm as int, t - ti, tn - ti) && within_fade(
                brightness as int,
                ib as int,
                nb as int,
                t - ti,
                tn - ti,
            )
            &&& t == ti ==> mirek == im && brightness == ib
        },
{
    let t = now.utc_millis as int;
    let tp = s[i - 1].time.utc_millis as int;
    let ti = s[i].time.utc_millis as int;
    let tn = s[i + 1].time.utc_millis as int;
    let (pm, pb) = color_of(s[i - 1].change)->0;
    let (im, ib) = color_of(s[i].change)->0;
    let (nm, nb) = color_of(s[i + 1].change)->0;
    if t < ti {
        assert(covers(s, i - 1, t));
        lemma_sorted_cover_found(s, t, i - 1, 0);
        lemma_interpolate_between(pm as int, im as int, tp, ti, t);
        lemma_interpolate_between(pb as int, ib as int, tp, ti, t);
        lemma_interpolate_near_ends(pm as int, im as int, tp, ti, t);
        lemma_interpolate_near_ends(pb as int, ib as int, tp, ti, t);
    } else {
        assert(covers(s, i, t));
        lemma_sorted_cover_found(s, t, i, 0);
        lemma_interpolate_between(im as int, nm as int, ti, tn, t);
        lemma_interpolate_between(ib as int, nb as int, ti, tn, t);
        lemma_interpolate_near_ends(im as int, nm as int, ti, tn, t);
        lemma_interpolate_near_ends(ib as int, nb as int, ti, tn, t);
        lemma_blend_at_endpoints(s[i], s[i + 1]);
    }
}

} // verus!
