use vstd::prelude::*;
use crate::clock::{
    LocalDateTime, as_local, parsed_local_time, formatted_local_time, whole_seconds_between,
    local_now, parse_local_dt, fmt_time, seconds_between, second_of_day, minute_of_day,
    weekday_number, new_schedule_id, micro_stamp, lemma_stamp_within_a_microsecond,
};
use crate::config::{
    Config, ConfigView, Schedule, ScheduleView, ManualOverride, ManualOverrideView, opt_schedule,
    opt_override, opt_text, schedules_view, clone_schedules, clone_schedule_opt, clone_override_opt,
};
use crate::request::{SchedulePayload, schedule_from_request, schedule_from_payload};
use crate::text::{parse_time, parse_time_spec};

verus! {

/// How often the switch steps by default, in seconds.
pub const DEFAULT_TICK_SECS: u64 = 15;

/// The relay as the controller last drove it: off, or on since a time.
pub enum RelayState {
    Off,
    On(LocalDateTime),
}

/// The switch: its settings, the relay, and the schedule that holds it on.
pub struct Controller {
    config: Config,
    relay: RelayState,
    active_schedule: Option<Schedule>,
}

pub struct ControllerView {
    pub config: ConfigView,
    pub relay_on: bool,
    pub relay_started_at: Option<LocalDateTime>,
    pub active_schedule: Option<ScheduleView>,
}

impl View for Controller {
    type V = ControllerView;

    closed spec fn view(&self) -> ControllerView {
        ControllerView {
            config: self.config@,
            relay_on: self.relay is On,
            relay_started_at: match self.relay {
                RelayState::On(since) => Some(since),
                RelayState::Off => None,
            },
            active_schedule: opt_schedule(self.active_schedule),
        }
    }
}

/// A snapshot of the switch for display.
#[derive(Debug)]
pub struct Status {
    pub relay_on: bool,
    pub relay_started_at: Option<String>,
    pub relay_remaining_seconds: Option<i64>,
    pub manual_override: Option<ManualOverride>,
    pub active_schedule: Option<Schedule>,
    pub schedules: Vec<Schedule>,
    pub relay_gpio: u8,
    pub allow_shutdown: bool,
    pub gpio_level: Option<u8>,
}

pub struct StatusView {
    pub relay_on: bool,
    pub relay_started_at: Option<Seq<char>>,
    pub relay_remaining_seconds: Option<i64>,
    pub manual_override: Option<ManualOverrideView>,
    pub active_schedule: Option<ScheduleView>,
    pub schedules: Seq<ScheduleView>,
    pub relay_gpio: u8,
    pub allow_shutdown: bool,
    pub gpio_level: Option<u8>,
}

impl View for Status {
    type V = StatusView;

    open spec fn view(&self) -> StatusView {
        StatusView {
            relay_on: self.relay_on,
            relay_started_at: opt_text(self.relay_started_at),
            relay_remaining_seconds: self.relay_remaining_seconds,
            manual_override: opt_override(self.manual_override),
            active_schedule: opt_schedule(self.active_schedule),
            schedules: schedules_view(self.schedules@),
            relay_gpio: self.relay_gpio,
            allow_shutdown: self.allow_shutdown,
            gpio_level: self.gpio_level,
        }
    }
}

// ---------------------------------------------------------------------------
// What the switch decides, over the views.

/// A schedule's window in minutes of the day, `[start, end)`, from its time and
/// its duration cut to 16 bits. A start at 24:00 or later lies past every
/// minute of the day, so such a window never opens.
pub open spec fn schedule_window(s: ScheduleView) -> Option<(int, int)> {
    match parse_time_spec(s.time) {
        Some((h, m)) => {
            let start = h * 60 + m;
            let end = start + s.duration_minutes % 65536;
            Some((start, end))
        },
        None => None,
    }
}

/// A schedule holds the relay on at the given day (1 = Monday) and minute.
pub open spec fn schedule_active(s: ScheduleView, today: u8, minute: int) -> bool {
    match schedule_window(s) {
        Some((start, end)) => s.days.contains(today) && start <= minute && minute < end,
        None => false,
    }
}

/// The first schedule in the list that holds the relay on.
pub open spec fn first_active(ss: Seq<ScheduleView>, today: u8, minute: int) -> Option<ScheduleView>
    decreases ss.len(),
{
    if ss.len() == 0 {
        None
    } else if schedule_active(ss[0], today, minute) {
        Some(ss[0])
    } else {
        first_active(ss.drop_first(), today, minute)
    }
}

/// The day of the week of `now`, 1 = Monday .. 7 = Sunday.
pub open spec fn today_number(now: LocalDateTime) -> u8 {
    (now.days_from_monday() + 1) as u8
}

/// The controller with the relay driven on or off at `now`.
pub open spec fn with_relay(c: ControllerView, on: bool, now: LocalDateTime) -> ControllerView {
    ControllerView {
        config: c.config,
        relay_on: on,
        relay_started_at: if on { Some(now) } else { None },
        active_schedule: c.active_schedule,
    }
}

/// What holds of every state the switch reaches: a schedule is active only
/// while the relay is on, the relay has an on-time exactly while it is on, and
/// that on-time is a chrono date and time.
pub open spec fn consistent(c: ControllerView) -> bool {
    &&& c.active_schedule is Some ==> c.relay_on
    &&& c.relay_on <==> c.relay_started_at is Some
    &&& c.relay_started_at matches Some(t) ==> t.is_chrono()
}

/// The controller after the schedules decide at `now`.
pub open spec fn follow_schedules(c: ControllerView, now: LocalDateTime) -> ControllerView {
    match first_active(c.config.schedules, today_number(now), now.minute_of_day()) {
        Some(s) => ControllerView { active_schedule: Some(s), ..with_relay(c, true, now) },
        None => ControllerView { active_schedule: None, ..with_relay(c, false, now) },
    }
}

/// When a timed override began, if it is timed and its stamp reads as a time.
pub open spec fn override_start(mo: ManualOverrideView) -> Option<LocalDateTime> {
    match (mo.duration, mo.until) {
        (Some(d), Some(u)) => as_local(parsed_local_time(u)),
        _ => None,
    }
}

/// A timed override has run its course at `now`: its full duration in minutes
/// has passed since its stamp.
pub open spec fn override_expired(mo: ManualOverrideView, now: LocalDateTime) -> bool {
    match override_start(mo) {
        Some(start) => whole_seconds_between(now, start) >= 60 * mo.duration->0,
        None => false,
    }
}

/// One step of the controller at `now`: the new state, and whether the
/// settings changed (an expired override was cleared) and must be stored.
pub open spec fn tick_spec(c: ControllerView, now: LocalDateTime) -> (ControllerView, bool) {
    match c.config.manual_override {
        Some(mo) => if mo.state {
            if override_expired(mo, now) {
                let cleared = ControllerView {
                    config: ConfigView { manual_override: None, ..c.config },
                    active_schedule: None,
                    ..c
                };
                (follow_schedules(cleared, now), true)
            } else {
                (with_relay(c, true, now), false)
            }
        } else {
            (ControllerView { active_schedule: None, ..with_relay(c, false, now) }, false)
        },
        None => (follow_schedules(c, now), false),
    }
}

/// The whole seconds left of the relay's current on-time at `now`, never below zero.
pub open spec fn remaining_spec(c: ControllerView, now: LocalDateTime) -> Option<int> {
    if !c.relay_on {
        None
    } else if c.config.manual_override is Some && c.config.manual_override->0.state
        && override_start(c.config.manual_override->0) is Some {
        let mo = c.config.manual_override->0;
        let left = 60 * mo.duration->0 - whole_seconds_between(now, override_start(mo)->0);
        Some(if left > 0 { left } else { 0 })
    } else {
        match c.active_schedule {
            Some(s) => match parse_time_spec(s.time) {
                Some((h, m)) => if h < 24 && m < 60 {
                    let today_start = now.midnight() + h * 3600 + m * 60;
                    let start = if now.secs < today_start { today_start - 86400 } else { today_start };
                    let end = LocalDateTime { secs: (start + 60 * s.duration_minutes) as i64, nanos: 0 };
                    let left = whole_seconds_between(end, now);
                    Some(if left > 0 { left } else { 0 })
                } else {
                    None
                },
                None => None,
            },
            None => None,
        }
    }
}

/// The override that a manual request sets at `now`.
pub open spec fn override_for(state: bool, duration: Option<u32>, now: LocalDateTime) -> ManualOverrideView {
    if state {
        ManualOverrideView {
            state: true,
            until: if duration is Some { formatted_local_time(now.secs, now.nanos) } else { None },
            duration,
        }
    } else {
        ManualOverrideView { state: false, until: None, duration: None }
    }
}

/// The controller holds a timed override that is on, lasts `minutes`, and was
/// stamped at `t` (its stamp reads back as `t` to the microsecond).
pub open spec fn timed_override_since(c: ControllerView, minutes: u32, t: LocalDateTime) -> bool {
    &&& c.config.manual_override is Some
    &&& c.config.manual_override->0.state
    &&& c.config.manual_override->0.duration == Some(minutes)
    &&& override_start(c.config.manual_override->0) == Some(micro_stamp(t))
}

/// The controller with its override replaced.
pub open spec fn with_override(c: ControllerView, mo: Option<ManualOverrideView>) -> ControllerView {
    ControllerView { config: ConfigView { manual_override: mo, ..c.config }, ..c }
}

/// The controller with its schedules replaced.
pub open spec fn with_schedules(c: ControllerView, ss: Seq<ScheduleView>) -> ControllerView {
    ControllerView { config: ConfigView { schedules: ss, ..c.config }, ..c }
}

/// The schedules left once those with the id are taken out, in order.
pub open spec fn without_id(ss: Seq<ScheduleView>, id: u64) -> Seq<ScheduleView>
    decreases ss.len(),
{
    if ss.len() == 0 {
        Seq::empty()
    } else {
        let rest = without_id(ss.drop_last(), id);
        if ss.last().id == id { rest } else { rest.push(ss.last()) }
    }
}

/// Some schedule in the list has the id.
pub open spec fn has_id(ss: Seq<ScheduleView>, id: u64) -> bool {
    exists|i: int| 0 <= i < ss.len() && #[trigger] ss[i].id == id
}

proof fn lemma_has_id_push(ss: Seq<ScheduleView>, x: ScheduleView, id: u64)
    ensures
        has_id(ss.push(x), id) == (has_id(ss, id) || x.id == id),
{
    if has_id(ss.push(x), id) {
        let k = choose|k: int| 0 <= k < ss.push(x).len() && #[trigger] ss.push(x)[k].id == id;
        if k < ss.len() {
            assert(ss[k].id == id);
        }
    }
    if has_id(ss, id) {
        let k = choose|k: int| 0 <= k < ss.len() && #[trigger] ss[k].id == id;
        assert(ss.push(x)[k].id == id);
    }
    if x.id == id {
        assert(ss.push(x)[ss.len() as int].id == id);
    }
}

/// The controller right after start-up, before its first step.
pub open spec fn initial_view(config: ConfigView) -> ControllerView {
    ControllerView { config, relay_on: false, relay_started_at: None, active_schedule: None }
}

/// The displayed snapshot at `now`.
pub open spec fn status_spec(c: ControllerView, now: LocalDateTime, gpio_level: Option<u8>) -> StatusView {
    StatusView {
        relay_on: c.relay_on,
        relay_started_at: match c.relay_started_at {
            Some(t) => formatted_local_time(t.secs, t.nanos),
            None => None,
        },
        relay_remaining_seconds: match remaining_spec(c, now) {
            Some(v) => Some(v as i64),
            None => None,
        },
        manual_override: c.config.manual_override,
        active_schedule: c.active_schedule,
        schedules: c.config.schedules,
        relay_gpio: c.config.relay_gpio,
        allow_shutdown: c.config.allow_shutdown,
        gpio_level,
    }
}

/// The level read from the relay pin, 0 for low and 1 for high.
pub open spec fn level_of(pin_is_low: Option<bool>) -> Option<u8> {
    match pin_is_low {
        Some(low) => Some(if low { 0u8 } else { 1u8 }),
        None => None,
    }
}

// ---------------------------------------------------------------------------
// The executable switch.

fn days_contain(days: &Vec<u8>, day: u8) -> (r: bool)
    ensures
        r == days@.contains(day),
{
    let n = days.len();
    for i in 0..n
        invariant
            n == days@.len(),
            forall|j: int| 0 <= j < i ==> days@[j] != day,
    {
        if days[i] == day {
            return true;
        }
    }
    false
}

fn is_schedule_active(s: &Schedule, today: u8, minute: u16) -> (r: bool)
    ensures
        r == schedule_active(s@, today, minute as int),
{
    match parse_time(s.time.as_str()) {
        Some((h, m)) => {
            let start: u32 = (h as u32) * 60 + (m as u32);
            let end: u32 = start + s.duration_minutes % 65536;
            days_contain(&s.days, today) && start <= minute as u32 && (minute as u32) < end
        },
        None => false,
    }
}

fn find_active(ss: &Vec<Schedule>, today: u8, minute: u16) -> (r: Option<Schedule>)
    ensures
        opt_schedule(r) == first_active(schedules_view(ss@), today, minute as int),
{
    let ghost sv = schedules_view(ss@);
    let n = ss.len();
    assert(sv.skip(0) =~= sv);
    for i in 0..n
        invariant
            n == ss@.len(),
            sv == schedules_view(ss@),
            first_active(sv, today, minute as int) == first_active(sv.skip(i as int), today, minute as int),
    {
        assert(sv.skip(i as int)[0] == ss@[i as int]@);
        assert(sv.skip(i as int).drop_first() =~= sv.skip(i as int + 1));
        if is_schedule_active(&ss[i], today, minute) {
            return Some(ss[i].clone());
        }
    }
    assert(sv.skip(n as int) =~= Seq::<ScheduleView>::empty());
    None
}

/// A timed override of `minutes` minutes whose stamp reads as `start` has run
/// its course at `now`: at least `60 * minutes` whole seconds have passed.
pub fn override_has_run_out(minutes: u32, start: LocalDateTime, now: LocalDateTime) -> (r: bool)
    requires
        start.in_range(),
        now.in_range(),
    ensures
        r == (whole_seconds_between(now, start) >= 60 * minutes),
{
    seconds_between(now, start) >= (minutes as i64) * 60
}

fn override_expired_at(mo: &ManualOverride, now: LocalDateTime) -> (r: bool)
    requires
        now.in_range(),
    ensures
        r == override_expired(mo@, now),
{
    match (mo.duration, &mo.until) {
        (Some(d), Some(u)) => match parse_local_dt(u.as_str()) {
            Some(start) => override_has_run_out(d, start, now),
            None => false,
        },
        _ => false,
    }
}

/// When a timed override began, read back from its stamp.
fn override_start_of(mo: &ManualOverride) -> (r: Option<LocalDateTime>)
    ensures
        r == override_start(mo@),
        r matches Some(t) ==> t.in_range(),
{
    match (mo.duration, &mo.until) {
        (Some(_), Some(u)) => parse_local_dt(u.as_str()),
        _ => None,
    }
}

/// The relay has an on-time exactly while it is on.
pub proof fn law_started_iff_on(c: &Controller)
    ensures
        c@.relay_on == (c@.relay_started_at is Some),
{
}

/// A step at a chrono time leaves the switch consistent, whatever its state before.
pub proof fn law_step_consistent(c: ControllerView, now: LocalDateTime)
    requires
        now.is_chrono(),
    ensures
        consistent(tick_spec(c, now).0),
{
}

/// What a consistent switch displays agrees with itself: a schedule is shown
/// active, or a time left is shown, only while the relay is on; the relay has
/// an on-time exactly while it is on; and the pin level shows 0 exactly while
/// the relay is on when the pin is driven as `pin_low` says.
pub proof fn law_status_consistent(c: ControllerView, now: LocalDateTime, gpio_level: Option<u8>)
    requires
        consistent(c),
    ensures
        status_spec(c, now, gpio_level).active_schedule is Some ==> status_spec(c, now, gpio_level).relay_on,
        status_spec(c, now, gpio_level).relay_remaining_seconds is Some ==> status_spec(c, now, gpio_level).relay_on,
        c.relay_started_at is Some <==> status_spec(c, now, gpio_level).relay_on,
        status_spec(c, now, level_of(Some(c.relay_on))).gpio_level == Some(0u8) <==> c.relay_on,
        status_spec(c, now, level_of(Some(c.relay_on))).gpio_level == Some(1u8) <==> !c.relay_on,
{
}

impl Controller {
    /// Starts the switch with stored settings at the current time (see `load_at`).
    pub fn load(config: Config) -> (r: (Controller, bool))
        ensures
            exists|now: LocalDateTime| #![trigger tick_spec(initial_view(config@), now)]
                now.is_chrono() && (r.0@, r.1) == tick_spec(initial_view(config@), now),
            consistent(r.0@),
    {
        let now = local_now();
        let r = Self::load_at(config, now);
        assert((r.0@, r.1) == tick_spec(initial_view(config@), now));
        r
    }

    /// Starts the switch with stored settings: the relay off and no active
    /// schedule, then one step at `now`. Also says whether the settings changed
    /// in that step.
    pub fn load_at(config: Config, now: LocalDateTime) -> (r: (Controller, bool))
        requires
            now.is_chrono(),
        ensures
            (r.0@, r.1) == tick_spec(initial_view(config@), now),
            consistent(r.0@),
    {
        let mut ctrl = Controller { config, relay: RelayState::Off, active_schedule: None };
        let changed = ctrl.tick_at(now);
        (ctrl, changed)
    }

    /// One step at the current time (see `tick_at`).
    pub fn tick(&mut self) -> (changed: bool)
        ensures
            exists|now: LocalDateTime| #![trigger tick_spec(old(self)@, now)]
                now.is_chrono() && (final(self)@, changed) == tick_spec(old(self)@, now),
            consistent(final(self)@),
    {
        let now = local_now();
        let changed = self.tick_at(now);
        assert((self@, changed) == tick_spec(old(self)@, now));
        changed
    }

    /// Applies the desired relay state at `now`: an override that is on holds
    /// the relay on until its duration has passed, one that is off holds it off;
    /// otherwise the first schedule whose window holds the current minute on the
    /// current day turns it on. Returns `true` when the settings changed (an
    /// expired override was cleared).
    pub fn tick_at(&mut self, now: LocalDateTime) -> (changed: bool)
        requires
            now.is_chrono(),
        ensures
            (final(self)@, changed) == tick_spec(old(self)@, now),
            consistent(final(self)@),
    {
        // 0: no override, 1: expired override, 2: override on, 3: override off
        let mode: u8 = match &self.config.manual_override {
            Some(mo) => if mo.state {
                if override_expired_at(mo, now) { 1 } else { 2 }
            } else {
                3
            },
            None => 0,
        };
        if mode == 2 {
            self.apply_relay(true, now);
            return false;
        }
        if mode == 3 {
            self.apply_relay(false, now);
            self.active_schedule = None;
            return false;
        }
        if mode == 1 {
            self.config.manual_override = None;
            self.active_schedule = None;
        }
        let today = weekday_number(now);
        let minute = minute_of_day(now);
        match find_active(&self.config.schedules, today, minute) {
            Some(s) => {
                self.apply_relay(true, now);
                self.active_schedule = Some(s);
            },
            None => {
                self.apply_relay(false, now);
                self.active_schedule = None;
            },
        }
        mode == 1
    }

    /// Drives the relay on or off at `now`, leaving the settings and the active
    /// schedule as they are.
    fn apply_relay(&mut self, on: bool, now: LocalDateTime)
        ensures
            final(self)@ == with_relay(old(self)@, on, now),
    {
        self.relay = if on { RelayState::On(now) } else { RelayState::Off };
    }

    /// Whether the relay is on.
    pub fn relay_on(&self) -> (r: bool)
        ensures
            r == self@.relay_on,
    {
        matches!(self.relay, RelayState::On(_))
    }

    /// The relay is wired active-low: its pin is driven low exactly while it is on.
    pub fn pin_low(&self) -> (r: bool)
        ensures
            r == self@.relay_on,
    {
        matches!(self.relay, RelayState::On(_))
    }

    /// The stored settings.
    pub fn config(&self) -> (r: &Config)
        ensures
            r@ == self@.config,
    {
        &self.config
    }

    /// A copy of the schedules.
    pub fn get_schedules(&self) -> (r: Vec<Schedule>)
        ensures
            schedules_view(r@) == self@.config.schedules,
    {
        clone_schedules(&self.config.schedules)
    }

    /// Adds the schedule that `payload` asks for under a fresh id taken from the
    /// clock, and returns it.
    pub fn add_schedule(&mut self, payload: SchedulePayload) -> (r: Schedule)
        ensures
            r@ == schedule_from_request(payload@, r@.id),
            final(self)@ == with_schedules(old(self)@, old(self)@.config.schedules.push(r@)),
            consistent(old(self)@) ==> consistent(final(self)@),
    {
        let id = new_schedule_id();
        self.add_schedule_with_id(payload, id)
    }

    /// Adds the schedule that `payload` asks for under `id` at the end of the
    /// list, and returns it.
    pub fn add_schedule_with_id(&mut self, payload: SchedulePayload, id: u64) -> (r: Schedule)
        ensures
            r@ == schedule_from_request(payload@, id),
            final(self)@ == with_schedules(old(self)@, old(self)@.config.schedules.push(r@)),
            consistent(old(self)@) ==> consistent(final(self)@),
    {
        let s = schedule_from_payload(&payload, id);
        let copy = s.clone();
        self.config.schedules.push(copy);
        assert(self@.config.schedules =~= old(self)@.config.schedules.push(s@));
        s
    }

    /// Takes out every schedule with the id; says whether any was there.
    pub fn remove_schedule(&mut self, schedule_id: u64) -> (removed: bool)
        ensures
            final(self)@ == with_schedules(old(self)@, without_id(old(self)@.config.schedules, schedule_id)),
            removed == has_id(old(self)@.config.schedules, schedule_id),
            consistent(old(self)@) ==> consistent(final(self)@),
    {
        let ghost sv = old(self)@.config.schedules;
        let mut kept: Vec<Schedule> = Vec::new();
        let mut found = false;
        let n = self.config.schedules.len();
        for i in 0..n
            invariant
                n == self.config.schedules@.len(),
                sv == schedules_view(self.config.schedules@),
                schedules_view(kept@) == without_id(sv.take(i as int), schedule_id),
                found == has_id(sv.take(i as int), schedule_id),
        {
            let ghost before = kept@;
            proof {
                assert(sv.take(i as int + 1) =~= sv.take(i as int).push(sv[i as int]));
                assert(sv.take(i as int + 1).drop_last() =~= sv.take(i as int));
                lemma_has_id_push(sv.take(i as int), sv[i as int], schedule_id);
            }
            if self.config.schedules[i].id == schedule_id {
                found = true;
            } else {
                let s = self.config.schedules[i].clone();
                kept.push(s);
                assert(schedules_view(kept@) =~= schedules_view(before).push(s@));
            }
        }
        assert(sv.take(n as int) =~= sv);
        self.config.schedules = kept;
        found
    }

    /// Sets a manual override at the current time (see `set_manual_at`).
    pub fn set_manual(&mut self, state: bool, duration_minutes: Option<u32>)
        ensures
            exists|now: LocalDateTime| #![trigger override_for(state, duration_minutes, now)]
                now.is_chrono() && final(self)@ == tick_spec(
                    with_override(old(self)@, Some(override_for(state, duration_minutes, now))),
                    now,
                ).0 && (state && duration_minutes is Some && duration_minutes->0 > 0
                    ==> timed_override_since(final(self)@, duration_minutes->0, now)),
            state && duration_minutes is Some && duration_minutes->0 > 0 ==> final(self)@.relay_on,
            state && duration_minutes == Some(0u32) ==> final(self)@.config.manual_override is None,
            consistent(final(self)@),
    {
        let now = local_now();
        self.set_manual_at(state, duration_minutes, now);
        assert(self@ == tick_spec(
            with_override(old(self)@, Some(override_for(state, duration_minutes, now))),
            now,
        ).0);
    }

    /// Sets a manual override at `now`, then steps: on with a duration is
    /// stamped with `now`; off holds the relay off until cleared.
    pub fn set_manual_at(&mut self, state: bool, duration_minutes: Option<u32>, now: LocalDateTime)
        requires
            now.is_chrono(),
        ensures
            final(self)@ == tick_spec(
                with_override(old(self)@, Some(override_for(state, duration_minutes, now))),
                now,
            ).0,
            state && duration_minutes is Some && duration_minutes->0 > 0
                ==> timed_override_since(final(self)@, duration_minutes->0, now) && final(self)@.relay_on,
            state && duration_minutes == Some(0u32) ==> final(self)@.config.manual_override is None,
            consistent(final(self)@),
    {
        let mo = if state {
            let until = match duration_minutes {
                Some(_) => fmt_time(now),
                None => None,
            };
            ManualOverride { state: true, until, duration: duration_minutes }
        } else {
            ManualOverride { state: false, until: None, duration: None }
        };
        proof {
            if state && duration_minutes is Some {
                lemma_stamp_within_a_microsecond(now);
                assert(override_start(mo@) == Some(micro_stamp(now)));
                assert(override_expired(mo@, now) == (duration_minutes->0 == 0));
            }
        }
        self.config.manual_override = Some(mo);
        let _ = self.tick_at(now);
    }

    /// Clears the manual override at the current time (see `clear_manual_at`).
    pub fn clear_manual(&mut self)
        ensures
            exists|now: LocalDateTime| #![trigger tick_spec(with_override(old(self)@, None), now)]
                now.is_chrono() && final(self)@ == tick_spec(with_override(old(self)@, None), now).0,
            consistent(final(self)@),
    {
        let now = local_now();
        self.clear_manual_at(now);
        assert(self@ == tick_spec(with_override(old(self)@, None), now).0);
    }

    /// Clears the manual override, then steps at `now`: the schedules decide again.
    pub fn clear_manual_at(&mut self, now: LocalDateTime)
        requires
            now.is_chrono(),
        ensures
            final(self)@ == tick_spec(with_override(old(self)@, None), now).0,
            consistent(final(self)@),
    {
        self.config.manual_override = None;
        let _ = self.tick_at(now);
    }

    /// Whether the settings allow powering the machine off.
    pub fn allow_shutdown(&self) -> (r: bool)
        ensures
            r == self@.config.allow_shutdown,
    {
        self.config.allow_shutdown
    }

    /// The level read from the relay pin (0 low, 1 high), when there is a pin.
    pub fn gpio_level(pin_is_low: Option<bool>) -> (r: Option<u8>)
        ensures
            r == level_of(pin_is_low),
    {
        match pin_is_low {
            Some(low) => Some(if low { 0 } else { 1 }),
            None => None,
        }
    }

    /// The whole seconds left of the relay's on-time at `now`: for a timed
    /// override, its duration less the time since its stamp; for a schedule,
    /// until the end of its window (begun today, or yesterday when its start is
    /// still ahead); never below zero, and nothing while the relay is off.
    pub fn relay_remaining(&self, now: LocalDateTime) -> (r: Option<i64>)
        requires
            now.in_range(),
        ensures
            r == match remaining_spec(self@, now) {
                Some(v) => Some(v as i64),
                None => None::<i64>,
            },
            r matches Some(v) ==> remaining_spec(self@, now) == Some(v as int) && v >= 0,
    {
        if !matches!(self.relay, RelayState::On(_)) {
            return None;
        }
        if let Some(mo) = &self.config.manual_override {
            if mo.state {
                if let Some(start) = override_start_of(mo) {
                    let d = match mo.duration {
                        Some(d) => d,
                        None => 0,
                    };
                    let secs: i64 = (d as i64) * 60 - seconds_between(now, start);
                    return Some(if secs > 0 { secs } else { 0 });
                }
            }
        }
        match &self.active_schedule {
            Some(s) => match parse_time(s.time.as_str()) {
                Some((h, m)) => {
                    if h < 24 && m < 60 {
                        let midnight: i64 = now.secs - second_of_day(now);
                        let today_start: i64 = midnight + (h as i64) * 3600 + (m as i64) * 60;
                        let start: i64 = if now.secs < today_start { today_start - 86400 } else { today_start };
                        let end = LocalDateTime { secs: start + (s.duration_minutes as i64) * 60, nanos: 0 };
                        let secs = seconds_between(end, now);
                        Some(if secs > 0 { secs } else { 0 })
                    } else {
                        None
                    }
                },
                None => None,
            },
            None => None,
        }
    }

    /// A snapshot at the current time (see `status_at`), with the level read
    /// from the relay pin when there is one.
    pub fn status(&self, pin_is_low: Option<bool>) -> (r: Status)
        ensures
            exists|now: LocalDateTime| #![trigger status_spec(self@, now, level_of(pin_is_low))]
                now.is_chrono() && r@ == status_spec(self@, now, level_of(pin_is_low)),
            consistent(self@) ==> (r.relay_started_at is Some <==> r.relay_on),
            r.relay_remaining_seconds matches Some(x) ==> x >= 0,
    {
        let now = local_now();
        let r = self.status_at(now, Self::gpio_level(pin_is_low));
        assert(r@ == status_spec(self@, now, level_of(pin_is_low)));
        r
    }

    /// A snapshot of the switch at `now`.
    pub fn status_at(&self, now: LocalDateTime, gpio_level: Option<u8>) -> (r: Status)
        requires
            now.in_range(),
        ensures
            r@ == status_spec(self@, now, gpio_level),
            consistent(self@) ==> (r.relay_started_at is Some <==> r.relay_on),
            r.relay_remaining_seconds matches Some(x) ==> x >= 0,
    {
        let relay_started_at = match self.relay {
            RelayState::On(since) => fmt_time(since),
            RelayState::Off => None,
        };
        Status {
            relay_on: matches!(self.relay, RelayState::On(_)),
            relay_started_at,
            relay_remaining_seconds: self.relay_remaining(now),
            manual_override: clone_override_opt(&self.config.manual_override),
            active_schedule: clone_schedule_opt(&self.active_schedule),
            schedules: clone_schedules(&self.config.schedules),
            relay_gpio: self.config.relay_gpio,
            allow_shutdown: self.config.allow_shutdown,
            gpio_level,
        }
    }
}

} // verus!
