use vstd::prelude::*;
use crate::clock::{
    LocalDateTime, as_local, parsed_local_time, whole_seconds_between, nanos_between, micro_stamp,
};
use crate::config::{ManualOverrideView, ScheduleView};
use crate::controller::{
    ControllerView, tick_spec, follow_schedules, with_override, override_for, override_expired,
    override_start, first_active, schedule_active, today_number, remaining_spec, without_id, has_id,
    timed_override_since, status_spec,
};
use crate::text::parse_time_spec;

verus! {

/// The first active schedule exists exactly when some schedule in the list is active.
#[verifier::rlimit(40)]
pub proof fn law_first_active_exists(ss: Seq<ScheduleView>, today: u8, minute: int)
    ensures
        first_active(ss, today, minute) is Some <==> exists|i: int|
            0 <= i < ss.len() && #[trigger] schedule_active(ss[i], today, minute),
    decreases ss.len(),
{
    if ss.len() > 0 {
        let t = ss.drop_first();
        law_first_active_exists(t, today, minute);
        if !schedule_active(ss[0], today, minute) {
            if exists|i: int| 0 <= i < ss.len() && #[trigger] schedule_active(ss[i], today, minute) {
                let i = choose|i: int| 0 <= i < ss.len() && #[trigger] schedule_active(ss[i], today, minute);
                assert(t[i - 1] == ss[i]);
            }
            if first_active(t, today, minute) is Some {
                let i = choose|i: int| 0 <= i < t.len() && #[trigger] schedule_active(t[i], today, minute);
                assert(ss[i + 1] == t[i]);
            }
        }
    }
}

/// The first active schedule is the earliest active schedule in the list.
pub proof fn law_first_active_is_earliest(ss: Seq<ScheduleView>, today: u8, minute: int)
    ensures
        first_active(ss, today, minute) matches Some(s) ==> exists|i: int|
            0 <= i < ss.len() && ss[i] == s && #[trigger] schedule_active(ss[i], today, minute)
                && forall|j: int| 0 <= j < i ==> !schedule_active(#[trigger] ss[j], today, minute),
    decreases ss.len(),
{
    if ss.len() > 0 {
        let t = ss.drop_first();
        law_first_active_is_earliest(t, today, minute);
        if schedule_active(ss[0], today, minute) {
            assert(ss[0] == first_active(ss, today, minute)->0);
        } else if first_active(t, today, minute) is Some {
            let s = first_active(t, today, minute)->0;
            let i = choose|i: int| 0 <= i < t.len() && t[i] == s && #[trigger] schedule_active(t[i], today, minute)
                && forall|j: int| 0 <= j < i ==> !schedule_active(#[trigger] t[j], today, minute);
            assert(ss[i + 1] == t[i]);
            assert forall|j: int| 0 <= j < i + 1 implies !schedule_active(#[trigger] ss[j], today, minute) by {
                if j > 0 {
                    assert(ss[j] == t[j - 1]);
                }
            }
        }
    }
}

/// An override that is off holds the relay off whatever the schedules say, and
/// leaves the settings as they were.
pub proof fn law_locked_off(c: ControllerView, now: LocalDateTime)
    requires
        c.config.manual_override matches Some(mo) && !mo.state,
    ensures
        !tick_spec(c, now).0.relay_on,
        tick_spec(c, now).0.active_schedule is None,
        tick_spec(c, now).0.config == c.config,
        !tick_spec(c, now).1,
{
}

/// An override that is on and has not run its course holds the relay on, and
/// leaves the settings and the active schedule as they were.
pub proof fn law_override_on_holds(c: ControllerView, now: LocalDateTime)
    requires
        c.config.manual_override matches Some(mo) && mo.state && !override_expired(mo, now),
    ensures
        tick_spec(c, now).0.relay_on,
        tick_spec(c, now).0.relay_started_at == Some(now),
        tick_spec(c, now).0.config == c.config,
        tick_spec(c, now).0.active_schedule == c.active_schedule,
        !tick_spec(c, now).1,
{
}

/// An override that is on with no duration never runs its course.
pub proof fn law_untimed_override_never_expires(mo: ManualOverrideView, now: LocalDateTime)
    requires
        mo.duration is None,
    ensures
        !override_expired(mo, now),
{
}

/// A timed override runs its course once its duration in minutes has passed
/// since its stamp: the step clears it, reports the settings changed, and hands
/// the relay back to the schedules.
pub proof fn law_timed_override_expires(c: ControllerView, now: LocalDateTime, start: LocalDateTime, minutes: u32)
    requires
        c.config.manual_override is Some,
        c.config.manual_override->0.state,
        c.config.manual_override->0.duration == Some(minutes),
        c.config.manual_override->0.until is Some,
        as_local(parsed_local_time(c.config.manual_override->0.until->0)) == Some(start),
        whole_seconds_between(now, start) >= 60 * minutes,
    ensures
        tick_spec(c, now).1,
        tick_spec(c, now).0.config.manual_override is None,
        tick_spec(c, now).0 == follow_schedules(with_override(c, None), now),
{
    assert(override_start(c.config.manual_override->0) == Some(start));
}

/// Without an override the relay is on exactly when some schedule's window
/// holds the current minute on the current weekday, counted Monday = 1 through
/// Sunday = 7; the schedule made active lists that weekday among its days; and
/// the settings stay as they were.
pub proof fn law_schedules_decide(c: ControllerView, now: LocalDateTime)
    requires
        c.config.manual_override is None,
    ensures
        tick_spec(c, now).0.relay_on <==> exists|i: int| 0 <= i < c.config.schedules.len()
            && #[trigger] schedule_active(c.config.schedules[i], (now.days_from_monday() + 1) as u8, now.minute_of_day()),
        tick_spec(c, now).0.active_schedule matches Some(s)
            ==> s.days.contains((now.days_from_monday() + 1) as u8) && c.config.schedules.contains(s),
        tick_spec(c, now).0.config == c.config,
        !tick_spec(c, now).1,
{
    law_first_active_exists(c.config.schedules, (now.days_from_monday() + 1) as u8, now.minute_of_day());
    law_first_active_is_earliest(c.config.schedules, (now.days_from_monday() + 1) as u8, now.minute_of_day());
}

/// The day a step matches against a schedule's days is the weekday of now,
/// Monday = 1 through Sunday = 7.
pub proof fn law_step_day_is_weekday(now: LocalDateTime)
    ensures
        today_number(now) as int == now.days_from_monday() + 1,
        1 <= today_number(now) <= 7,
{
    law_weekday_calendar(now);
}

/// The weekday of a time, counted from Monday = 0: 1970-01-01 was a Thursday,
/// and each day later is the next weekday, Sunday wrapping to Monday.
pub proof fn law_weekday_calendar(t: LocalDateTime)
    ensures
        0 <= t.days_from_monday() < 7,
        (LocalDateTime { secs: 0, nanos: 0 }).days_from_monday() == 3,
        t.secs + 86400 <= i64::MAX ==> (LocalDateTime { secs: (t.secs + 86400) as i64, nanos: t.nanos }).days_from_monday()
            == (t.days_from_monday() + 1) % 7,
{
    if t.secs + 86400 <= i64::MAX {
        let u = LocalDateTime { secs: (t.secs + 86400) as i64, nanos: t.nanos };
        let q = (t.secs as int) / 86400;
        vstd::arithmetic::div_mod::lemma_fundamental_div_mod(t.secs as int, 86400);
        vstd::arithmetic::div_mod::lemma_fundamental_div_mod_converse(u.secs as int, 86400, q + 1, (t.secs as int) % 86400);
        let w = (q + 3) % 7;
        vstd::arithmetic::div_mod::lemma_fundamental_div_mod(q + 3, 7);
        if w < 6 {
            vstd::arithmetic::div_mod::lemma_fundamental_div_mod_converse(q + 4, 7, (q + 3) / 7, w + 1);
        } else {
            vstd::arithmetic::div_mod::lemma_fundamental_div_mod_converse(q + 4, 7, (q + 3) / 7 + 1, 0);
        }
    }
}

/// A step leaves the settings as they were, but for clearing an override that
/// has run its course, which it reports.
pub proof fn law_tick_keeps_settings(c: ControllerView, now: LocalDateTime)
    ensures
        tick_spec(c, now).1 ==> tick_spec(c, now).0.config == with_override(c, None).config,
        !tick_spec(c, now).1 ==> tick_spec(c, now).0.config == c.config,
{
}

/// After a step a schedule is active only while the relay is on, whatever the
/// state before.
pub proof fn law_step_keeps_active_on(c: ControllerView, now: LocalDateTime)
    ensures
        tick_spec(c, now).0.active_schedule is Some ==> tick_spec(c, now).0.relay_on,
{
}

/// A timed override stamped at `t` for `minutes` minutes runs its course: every
/// step less than `60 * minutes` whole seconds after its stamp holds the relay
/// on and keeps the settings; the first step at or after `t` plus
/// `60 * minutes` seconds clears it, reports the change and hands the relay back
/// to the schedules.
pub proof fn law_timed_override_runs_out(c: ControllerView, minutes: u32, t: LocalDateTime, now: LocalDateTime)
    requires
        timed_override_since(c, minutes, t),
        minutes > 0,
        t.is_chrono(),
        t.nanos < 1_000_000_000,
    ensures
        whole_seconds_between(now, micro_stamp(t)) < 60 * minutes ==> {
            &&& tick_spec(c, now).0.relay_on
            &&& tick_spec(c, now).0.config == c.config
            &&& !tick_spec(c, now).1
        },
        now.nanos < 1_000_000_000 && now.secs * 1_000_000_000 + now.nanos
            < t.secs * 1_000_000_000 + micro_stamp(t).nanos + 60 * minutes * 1_000_000_000 ==> {
            &&& tick_spec(c, now).0.relay_on
            &&& tick_spec(c, now).0.config == c.config
            &&& !tick_spec(c, now).1
        },
        now.nanos < 1_000_000_000 && now.secs * 1_000_000_000 + now.nanos
            >= t.secs * 1_000_000_000 + t.nanos + 60 * minutes * 1_000_000_000 ==> {
            &&& tick_spec(c, now).1
            &&& tick_spec(c, now).0.config.manual_override is None
            &&& tick_spec(c, now).0 == follow_schedules(with_override(c, None), now)
        },
{
    let ts = micro_stamp(t);
    let mo = c.config.manual_override->0;
    assert(override_start(mo) == Some(ts));
    vstd::arithmetic::div_mod::lemma_fundamental_div_mod(t.nanos as int, 1000);
    assert(ts.nanos <= t.nanos);
    if now.nanos < 1_000_000_000 {
        let nb = nanos_between(now, ts);
        assert(nb == (now.secs - t.secs) * 1_000_000_000 + now.nanos - ts.nanos);
        let bound = 60 * minutes * 1_000_000_000;
        if nb >= 0 {
            vstd::arithmetic::div_mod::lemma_fundamental_div_mod(nb, 1_000_000_000);
            let q = nb / 1_000_000_000;
            assert(whole_seconds_between(now, ts) == q);
            if nb >= bound {
                assert(q >= 60 * minutes) by (nonlinear_arith)
                    requires nb == q * 1_000_000_000 + nb % 1_000_000_000, nb % 1_000_000_000 < 1_000_000_000,
                        nb >= 60 * minutes * 1_000_000_000;
            }
            if nb < bound {
                assert(q < 60 * minutes) by (nonlinear_arith)
                    requires nb == q * 1_000_000_000 + nb % 1_000_000_000, nb % 1_000_000_000 >= 0,
                        nb < 60 * minutes * 1_000_000_000;
            }
        } else {
            assert(whole_seconds_between(now, ts) <= 0);
        }
    }
}

/// A step at the same moment changes nothing more: stepping twice is stepping once.
pub proof fn law_tick_idempotent(c: ControllerView, now: LocalDateTime)
    ensures
        tick_spec(tick_spec(c, now).0, now) == (tick_spec(c, now).0, false),
{
}

/// Clearing the override returns the switch to its schedules.
pub proof fn law_clear_returns_to_schedules(c: ControllerView, now: LocalDateTime)
    ensures
        tick_spec(with_override(c, None), now).0 == follow_schedules(with_override(c, None), now),
        tick_spec(with_override(c, None), now).0.config.manual_override is None,
{
}

/// Setting the override off holds the relay off.
pub proof fn law_manual_off_locks(c: ControllerView, duration: Option<u32>, now: LocalDateTime)
    ensures
        !tick_spec(with_override(c, Some(override_for(false, duration, now))), now).0.relay_on,
{
}

/// Setting the override on without a duration holds the relay on, at that step
/// and at every later step until the override is changed.
pub proof fn law_manual_on_untimed_holds(c: ControllerView, now: LocalDateTime, later: LocalDateTime)
    ensures
        tick_spec(with_override(c, Some(override_for(true, None, now))), now).0.relay_on,
        tick_spec(tick_spec(with_override(c, Some(override_for(true, None, now))), now).0, later).0.relay_on,
{
}

/// Nothing is left of an on-time while the relay is off, and what is left is
/// never negative.
pub proof fn law_remaining_never_negative(c: ControllerView, now: LocalDateTime)
    ensures
        !c.relay_on ==> remaining_spec(c, now) is None,
        remaining_spec(c, now) matches Some(v) ==> v >= 0,
{
}

/// While a timed override holds the relay on, the time it has left is its
/// duration less the time since its stamp, and more than zero.
pub proof fn law_timed_override_time_left(c: ControllerView, now: LocalDateTime, start: LocalDateTime, minutes: u32)
    requires
        c.config.manual_override is Some,
        c.config.manual_override->0.state,
        c.config.manual_override->0.duration == Some(minutes),
        c.config.manual_override->0.until is Some,
        as_local(parsed_local_time(c.config.manual_override->0.until->0)) == Some(start),
        whole_seconds_between(now, start) < 60 * minutes,
    ensures
        remaining_spec(tick_spec(c, now).0, now) == Some(60 * minutes - whole_seconds_between(now, start)),
        remaining_spec(tick_spec(c, now).0, now)->0 > 0,
{
    assert(override_start(c.config.manual_override->0) == Some(start));
}

proof fn lemma_whole_seconds_of_whole_times(a: LocalDateTime, b: LocalDateTime)
    requires
        a.nanos == 0,
        b.nanos == 0,
    ensures
        whole_seconds_between(a, b) == a.secs - b.secs,
{
    let k = a.secs - b.secs;
    assert(nanos_between(a, b) == k * 1_000_000_000);
    if k >= 0 {
        vstd::arithmetic::div_mod::lemma_fundamental_div_mod_converse(k * 1_000_000_000, 1_000_000_000, k, 0);
    } else {
        vstd::arithmetic::div_mod::lemma_fundamental_div_mod_converse(-k * 1_000_000_000, 1_000_000_000, -k, 0);
    }
}

/// While a schedule holds the relay on and no timed override is in force, the
/// time left is the time from now to the end of the schedule's window: the
/// window starts at its `h:m` today when that is not later than now, else at
/// `h:m` yesterday, and lasts its duration. For a time on a whole second this is
/// `60 * (h * 60 + m + duration) - seconds since midnight`, less a day for a
/// window begun yesterday, and never below zero.
pub proof fn law_schedule_time_left(c: ControllerView, now: LocalDateTime, h: u16, m: u16)
    requires
        now.in_range(),
        c.relay_on,
        c.active_schedule is Some,
        parse_time_spec(c.active_schedule->0.time) == Some((h, m)),
        h < 24,
        m < 60,
        !(c.config.manual_override is Some && c.config.manual_override->0.state
            && override_start(c.config.manual_override->0) is Some),
    ensures
        ({
            let dur = c.active_schedule->0.duration_minutes;
            let start = if h * 60 + m <= now.minute_of_day() {
                now.midnight() + h * 3600 + m * 60
            } else {
                now.midnight() + h * 3600 + m * 60 - 86400
            };
            let left = whole_seconds_between(LocalDateTime { secs: (start + 60 * dur) as i64, nanos: 0 }, now);
            remaining_spec(c, now) == Some(if left > 0 { left } else { 0 })
        }),
        now.nanos == 0 ==> ({
            let dur = c.active_schedule->0.duration_minutes;
            let left = if h * 60 + m <= now.minute_of_day() {
                60 * (h * 60 + m + dur) - now.second_of_day()
            } else {
                60 * (h * 60 + m + dur) - 86400 - now.second_of_day()
            };
            remaining_spec(c, now) == Some(if left > 0 { left } else { 0 })
        }),
{
    let sod = now.second_of_day();
    vstd::arithmetic::div_mod::lemma_fundamental_div_mod(now.secs as int, 86400);
    vstd::arithmetic::div_mod::lemma_fundamental_div_mod(sod, 60);
    assert((h * 60 + m <= now.minute_of_day()) == (now.secs >= now.midnight() + h * 3600 + m * 60));
    let dur = c.active_schedule->0.duration_minutes;
    let start = if now.secs < now.midnight() + h * 3600 + m * 60 {
        now.midnight() + h * 3600 + m * 60 - 86400
    } else {
        now.midnight() + h * 3600 + m * 60
    };
    let end = LocalDateTime { secs: (start + 60 * dur) as i64, nanos: 0 };
    if now.nanos == 0 {
        lemma_whole_seconds_of_whole_times(end, now);
    }
}

/// A schedule holds the relay on exactly on the days it lists, from the minute
/// of the day its `h:m` names, for its duration cut to 16 bits.
pub proof fn law_schedule_window(s: ScheduleView, day: u8, minute: int)
    ensures
        schedule_active(s, day, minute) <==> (parse_time_spec(s.time) is Some && s.days.contains(day) && {
            let (h, m) = parse_time_spec(s.time)->0;
            h * 60 + m <= minute < h * 60 + m + s.duration_minutes % 65536
        }),
{
}

/// The clock fields of a time: its seconds since midnight lie in the day, its
/// midnight is a whole number of days from 1970, and its minute of the day is
/// the minute those seconds fall in.
pub proof fn law_clock_fields(t: LocalDateTime)
    ensures
        0 <= t.second_of_day() < 86400,
        t.secs == t.midnight() + t.second_of_day(),
        t.midnight() % 86400 == 0,
        t.minute_of_day() * 60 <= t.second_of_day() < t.minute_of_day() * 60 + 60,
        0 <= t.minute_of_day() < 1440,
{
    vstd::arithmetic::div_mod::lemma_fundamental_div_mod(t.secs as int, 86400);
    vstd::arithmetic::div_mod::lemma_fundamental_div_mod(t.second_of_day(), 60);
    vstd::arithmetic::div_mod::lemma_fundamental_div_mod_converse(t.midnight(), 86400, (t.secs as int) / 86400, 0);
}

/// The status shows the switch as it stands: the relay, the stored override,
/// the active schedule, every schedule, the pin number and the shutdown setting,
/// and the pin level it is given.
pub proof fn law_status_shows_the_switch(c: ControllerView, now: LocalDateTime, gpio_level: Option<u8>)
    ensures
        status_spec(c, now, gpio_level).relay_on == c.relay_on,
        status_spec(c, now, gpio_level).manual_override == c.config.manual_override,
        status_spec(c, now, gpio_level).active_schedule == c.active_schedule,
        status_spec(c, now, gpio_level).schedules == c.config.schedules,
        status_spec(c, now, gpio_level).relay_gpio == c.config.relay_gpio,
        status_spec(c, now, gpio_level).allow_shutdown == c.config.allow_shutdown,
        status_spec(c, now, gpio_level).gpio_level == gpio_level,
        (status_spec(c, now, gpio_level).relay_started_at is Some) ==> c.relay_started_at is Some,
{
}

proof fn lemma_without_id_absent(ss: Seq<ScheduleView>, id: u64)
    requires
        !has_id(ss, id),
    ensures
        without_id(ss, id) == ss,
    decreases ss.len(),
{
    if ss.len() > 0 {
        if has_id(ss.drop_last(), id) {
            let k = choose|k: int| 0 <= k < ss.drop_last().len() && #[trigger] ss.drop_last()[k].id == id;
            assert(ss[k].id == id);
        }
        lemma_without_id_absent(ss.drop_last(), id);
        assert(ss.last().id != id) by {
            if ss.last().id == id {
                assert(ss[ss.len() - 1].id == id);
            }
        }
        assert(ss.drop_last().push(ss.last()) =~= ss);
    }
}

/// Removing the id of a schedule just added, when no other schedule had that
/// id, gives back the schedules as they were, and reports a removal.
pub proof fn law_remove_undoes_add(ss: Seq<ScheduleView>, s: ScheduleView)
    requires
        !has_id(ss, s.id),
    ensures
        without_id(ss.push(s), s.id) == ss,
        has_id(ss.push(s), s.id),
{
    assert(ss.push(s).drop_last() =~= ss);
    lemma_without_id_absent(ss, s.id);
    assert(ss.push(s)[ss.len() as int].id == s.id);
}

/// After a removal no schedule with the id is left, and every schedule left
/// was there before.
pub proof fn law_remove_leaves_none(ss: Seq<ScheduleView>, id: u64)
    ensures
        !has_id(without_id(ss, id), id),
        forall|i: int| 0 <= i < without_id(ss, id).len() ==> ss.contains(#[trigger] without_id(ss, id)[i]),
    decreases ss.len(),
{
    if ss.len() > 0 {
        law_remove_leaves_none(ss.drop_last(), id);
        let rest = without_id(ss.drop_last(), id);
        assert forall|i: int| 0 <= i < without_id(ss, id).len() implies ss.contains(#[trigger] without_id(ss, id)[i]) by {
            if i < rest.len() {
                assert(rest[i] == without_id(ss, id)[i]);
                assert(ss.drop_last().contains(rest[i]));
                let k = choose|k: int| 0 <= k < ss.drop_last().len() && ss.drop_last()[k] == rest[i];
                assert(ss[k] == rest[i]);
            } else {
                assert(without_id(ss, id)[i] == ss.last());
                assert(ss[ss.len() - 1] == ss.last());
            }
        }
        if has_id(without_id(ss, id), id) {
            let k = choose|k: int| 0 <= k < without_id(ss, id).len() && #[trigger] without_id(ss, id)[k].id == id;
            if k < rest.len() {
                assert(rest[k].id == id);
            }
        }
    }
}

} // verus!
