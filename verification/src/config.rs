use vstd::prelude::*;

verus! {

/// A weekly switching window: from `time` ("HH:MM") for `duration_minutes`
/// on each day in `days` (1 = Monday .. 7 = Sunday).
#[derive(Debug)]
pub struct Schedule {
    pub id: u64,
    pub time: String,
    pub duration_minutes: u32,
    pub days: Vec<u8>,
}

pub struct ScheduleView {
    pub id: u64,
    pub time: Seq<char>,
    pub duration_minutes: u32,
    pub days: Seq<u8>,
}

impl View for Schedule {
    type V = ScheduleView;

    open spec fn view(&self) -> ScheduleView {
        ScheduleView {
            id: self.id,
            time: self.time@,
            duration_minutes: self.duration_minutes,
            days: self.days@,
        }
    }
}

impl Clone for Schedule {
    fn clone(&self) -> (r: Self)
        ensures
            r@ == self@,
    {
        let days = self.days.clone();
        assert(days@ =~= self.days@);
        Schedule {
            id: self.id,
            time: self.time.clone(),
            duration_minutes: self.duration_minutes,
            days,
        }
    }
}

/// A manual setting that takes precedence over the schedules: `state` on or
/// off; an "on" with a `duration` (minutes) lasts from the stamp `until`.
#[derive(Debug)]
pub struct ManualOverride {
    pub state: bool,
    pub until: Option<String>,
    pub duration: Option<u32>,
}

pub struct ManualOverrideView {
    pub state: bool,
    pub until: Option<Seq<char>>,
    pub duration: Option<u32>,
}

pub open spec fn opt_text(s: Option<String>) -> Option<Seq<char>> {
    match s {
        Some(s) => Some(s@),
        None => None,
    }
}

impl View for ManualOverride {
    type V = ManualOverrideView;

    open spec fn view(&self) -> ManualOverrideView {
        ManualOverrideView { state: self.state, until: opt_text(self.until), duration: self.duration }
    }
}

impl Clone for ManualOverride {
    fn clone(&self) -> (r: Self)
        ensures
            r@ == self@,
    {
        let until = match &self.until {
            Some(s) => Some(s.clone()),
            None => None,
        };
        ManualOverride { state: self.state, until, duration: self.duration }
    }
}

pub open spec fn opt_schedule(s: Option<Schedule>) -> Option<ScheduleView> {
    match s {
        Some(s) => Some(s@),
        None => None,
    }
}

pub open spec fn opt_override(m: Option<ManualOverride>) -> Option<ManualOverrideView> {
    match m {
        Some(m) => Some(m@),
        None => None,
    }
}

pub fn clone_schedule_opt(s: &Option<Schedule>) -> (r: Option<Schedule>)
    ensures
        opt_schedule(r) == opt_schedule(*s),
{
    match s {
        Some(s) => Some(s.clone()),
        None => None,
    }
}

pub fn clone_override_opt(m: &Option<ManualOverride>) -> (r: Option<ManualOverride>)
    ensures
        opt_override(r) == opt_override(*m),
{
    match m {
        Some(m) => Some(m.clone()),
        None => None,
    }
}

/// The views of a list of schedules.
pub open spec fn schedules_view(v: Seq<Schedule>) -> Seq<ScheduleView> {
    v.map_values(|s: Schedule| s@)
}

/// A copy of every schedule, in order.
pub fn clone_schedules(v: &Vec<Schedule>) -> (r: Vec<Schedule>)
    ensures
        schedules_view(r@) == schedules_view(v@),
{
    let mut r: Vec<Schedule> = Vec::new();
    let n = v.len();
    for i in 0..n
        invariant
            n == v@.len(),
            schedules_view(r@) =~= schedules_view(v@.take(i as int)),
    {
        let ghost before = r@;
        let s = v[i].clone();
        r.push(s);
        assert(schedules_view(r@) =~= schedules_view(before).push(s@));
        assert(v@.take(i as int + 1) =~= v@.take(i as int).push(v@[i as int]));
        assert(schedules_view(v@.take(i as int + 1)) =~= schedules_view(v@.take(i as int)).push(
            v@[i as int]@));
    }
    assert(v@.take(n as int) =~= v@);
    r
}

/// The switch's stored settings.
#[derive(Debug)]
pub struct Config {
    pub relay_gpio: u8,
    pub schedules: Vec<Schedule>,
    pub manual_override: Option<ManualOverride>,
    pub allow_shutdown: bool,
}

pub struct ConfigView {
    pub relay_gpio: u8,
    pub schedules: Seq<ScheduleView>,
    pub manual_override: Option<ManualOverrideView>,
    pub allow_shutdown: bool,
}

impl View for Config {
    type V = ConfigView;

    open spec fn view(&self) -> ConfigView {
        ConfigView {
            relay_gpio: self.relay_gpio,
            schedules: schedules_view(self.schedules@),
            manual_override: opt_override(self.manual_override),
            allow_shutdown: self.allow_shutdown,
        }
    }
}

impl Clone for Config {
    fn clone(&self) -> (r: Self)
        ensures
            r@ == self@,
    {
        Config {
            relay_gpio: self.relay_gpio,
            schedules: clone_schedules(&self.schedules),
            manual_override: clone_override_opt(&self.manual_override),
            allow_shutdown: self.allow_shutdown,
        }
    }
}

/// The GPIO pin of the relay when the settings name none.
pub open spec fn spec_default_pin() -> u8 {
    17
}

/// The length of a schedule when its request names none.
pub open spec fn spec_default_duration() -> u32 {
    30
}

/// Every day of the week, Monday through Sunday.
pub open spec fn spec_default_days() -> Seq<u8> {
    seq![1u8, 2u8, 3u8, 4u8, 5u8, 6u8, 7u8]
}

/// The settings written when none are stored yet.
pub open spec fn default_config_view() -> ConfigView {
    ConfigView {
        relay_gpio: spec_default_pin(),
        schedules: Seq::empty(),
        manual_override: None,
        allow_shutdown: false,
    }
}

pub fn default_duration() -> (r: u32)
    ensures
        r == spec_default_duration(),
{
    30
}

pub fn default_days() -> (r: Vec<u8>)
    ensures
        r@ == spec_default_days(),
{
    let mut days: Vec<u8> = Vec::new();
    let mut d: u8 = 1;
    while d <= 7
        invariant
            1 <= d <= 8,
            days@ =~= spec_default_days().take(d - 1),
        decreases 8 - d,
    {
        days.push(d);
        d = d + 1;
    }
    assert(days@ =~= spec_default_days());
    days
}

pub fn default_pin() -> (r: u8)
    ensures
        r == spec_default_pin(),
{
    17
}

impl Default for Config {
    fn default() -> (r: Self)
        ensures
            r@ == default_config_view(),
    {
        let c = Config {
            relay_gpio: 17,
            schedules: Vec::new(),
            manual_override: None,
            allow_shutdown: false,
        };
        assert(c@.schedules =~= Seq::<ScheduleView>::empty());
        c
    }
}

} // verus!
