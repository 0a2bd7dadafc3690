use vstd::prelude::*;

verus! {

/// The text form of a stored time stamp, as chrono's strftime reads and writes it.
pub const TIME_FMT: &'static str = "%Y-%m-%dT%H:%M:%S%.6f";

/// Seconds in a day.
pub const DAY_SECS: i64 = 86400;

/// A bound on the timestamp of every date and time chrono can hold
/// (its years run from -262143 to 262142, well inside 2^43 seconds).
pub const TIMESTAMP_BOUND: i64 = 8_796_093_022_208;

#[verifier::external_type_specification]
#[verifier::external_body]
pub struct ExSystemTime(std::time::SystemTime);

/// The timestamp of chrono's earliest date and time, `NaiveDateTime::MIN`.
pub const MIN_TIMESTAMP: i64 = -8_334_601_228_800;

/// The timestamp of chrono's latest date and time, `NaiveDateTime::MAX`.
pub const MAX_TIMESTAMP: i64 = 8_210_266_876_799;

/// A wall-clock date and time without a zone, held the way chrono holds a
/// `NaiveDateTime`: whole seconds since 1970-01-01T00:00:00 on the same clock,
/// and the fraction of the second in nanoseconds (a leap second carries a
/// fraction of 1_000_000_000 or more).
#[derive(Clone, Copy, Debug, PartialEq, Eq, Structural)]
pub struct LocalDateTime {
    pub secs: i64,
    pub nanos: u32,
}

impl LocalDateTime {
    /// A bound that every chrono date and time meets, loose enough for the
    /// arithmetic on times.
    pub open spec fn in_range(self) -> bool {
        &&& -TIMESTAMP_BOUND <= self.secs <= TIMESTAMP_BOUND
        &&& self.nanos < 2_000_000_000
    }

    /// Exactly the values a chrono `NaiveDateTime` can take: a timestamp from
    /// `NaiveDateTime::MIN` to `NaiveDateTime::MAX`, and a fraction below one
    /// second, or below two in the last second of a minute (a leap second).
    pub open spec fn is_chrono(self) -> bool {
        &&& MIN_TIMESTAMP <= self.secs <= MAX_TIMESTAMP
        &&& (self.nanos < 1_000_000_000 || (self.nanos < 2_000_000_000 && (self.secs as int) % 60 == 59))
    }

    /// Seconds since midnight (chrono's `num_seconds_from_midnight`).
    pub open spec fn second_of_day(self) -> int {
        (self.secs as int) % 86400
    }

    /// Days since 1970-01-01.
    pub open spec fn day_number(self) -> int {
        (self.secs as int) / 86400
    }

    /// `hour * 60 + minute` of the time of day.
    pub open spec fn minute_of_day(self) -> int {
        self.second_of_day() / 60
    }

    /// Day of the week counted from Monday = 0 (chrono's `num_days_from_monday`;
    /// 1970-01-01 was a Thursday).
    pub open spec fn days_from_monday(self) -> int {
        (self.day_number() + 3) % 7
    }

    /// The timestamp of the midnight that starts this date.
    pub open spec fn midnight(self) -> int {
        self.secs - self.second_of_day()
    }
}

/// `t` cut to the microsecond: what a stamp written with `TIME_FMT` keeps of it.
pub open spec fn micro_stamp(t: LocalDateTime) -> LocalDateTime {
    LocalDateTime { secs: t.secs, nanos: (t.nanos / 1000 * 1000) as u32 }
}

/// A time and its stamp lie within the same whole second: the stamp is behind
/// by less than a microsecond.
pub proof fn lemma_stamp_within_a_microsecond(t: LocalDateTime)
    requires
        t.nanos < 2_000_000_000,
    ensures
        0 <= nanos_between(t, micro_stamp(t)) < 1000,
        whole_seconds_between(t, micro_stamp(t)) == 0,
{
    let n = t.nanos as int;
    vstd::arithmetic::div_mod::lemma_fundamental_div_mod(n, 1000);
    assert(micro_stamp(t).nanos == n / 1000 * 1000);
    assert(micro_stamp(t).second_of_day() == t.second_of_day());
    assert(leap_carry(t, micro_stamp(t)) == 0);
}

/// The leap second that `NaiveTime::signed_duration_since` counts when one side
/// sits in a leap second and the other is later (or earlier) in the day.
pub open spec fn leap_carry(a: LocalDateTime, b: LocalDateTime) -> int {
    if a.second_of_day() > b.second_of_day() && b.nanos >= 1_000_000_000 {
        1
    } else if a.second_of_day() < b.second_of_day() && a.nanos >= 1_000_000_000 {
        -1
    } else {
        0
    }
}

/// The length of `a - b` in nanoseconds, as chrono computes it.
pub open spec fn nanos_between(a: LocalDateTime, b: LocalDateTime) -> int {
    (a.secs - b.secs + leap_carry(a, b)) * 1_000_000_000 + a.nanos - b.nanos
}

/// `(a - b).num_seconds()`: the whole seconds of `a - b`, rounded toward zero.
pub open spec fn whole_seconds_between(a: LocalDateTime, b: LocalDateTime) -> int {
    let t = nanos_between(a, b);
    if t >= 0 {
        t / 1_000_000_000
    } else {
        -((-t) / 1_000_000_000)
    }
}

proof fn lemma_second_of_day_negative(secs: int, r: int)
    requires
        secs < 0,
        r == (-(secs + 1)) % 86400,
    ensures
        secs % 86400 == 86399 - r,
{
    let x = -(secs + 1);
    let q = x / 86400;
    vstd::arithmetic::div_mod::lemma_fundamental_div_mod(x, 86400);
    assert(secs == (-q - 1) * 86400 + (86399 - r)) by (nonlinear_arith)
        requires x == q * 86400 + r, x == -(secs + 1);
    vstd::arithmetic::div_mod::lemma_fundamental_div_mod_converse(secs, 86400, -q - 1, 86399 - r);
}

/// Seconds since midnight of `t`.
pub fn second_of_day(t: LocalDateTime) -> (r: i64)
    ensures
        r == t.second_of_day(),
        0 <= r < 86400,
{
    if t.secs >= 0 {
        t.secs % DAY_SECS
    } else {
        let x: i64 = -(t.secs + 1);
        let r: i64 = 86399 - x % DAY_SECS;
        proof { lemma_second_of_day_negative(t.secs as int, (x as int) % 86400); }
        r
    }
}

/// `hour * 60 + minute` of `t`.
pub fn minute_of_day(t: LocalDateTime) -> (r: u16)
    ensures
        r == t.minute_of_day(),
        r < 1440,
{
    let s = second_of_day(t);
    (s / 60) as u16
}

/// Day of the week of `t`, 1 for Monday through 7 for Sunday
/// (`weekday().num_days_from_monday() + 1`).
pub fn weekday_number(t: LocalDateTime) -> (r: u8)
    requires
        t.in_range(),
    ensures
        r == t.days_from_monday() + 1,
        1 <= r <= 7,
{
    let s = second_of_day(t);
    // a whole number of weeks that lifts every day number in range above zero
    let shift: i64 = 101_806_635;
    let shifted: i64 = (t.secs - s) / DAY_SECS + shift;
    proof {
        let q = t.secs / 86400;
        vstd::arithmetic::div_mod::lemma_fundamental_div_mod(t.secs as int, 86400);
        assert(t.secs - s == q * 86400);
        vstd::arithmetic::div_mod::lemma_fundamental_div_mod_converse(t.secs - s, 86400, q, 0);
        assert(q * 86400 >= -TIMESTAMP_BOUND - 86400);
        assert(q >= -101_806_634) by (nonlinear_arith)
            requires q * 86400 >= -TIMESTAMP_BOUND - 86400;
        let k = (q + 3) / 7;
        vstd::arithmetic::div_mod::lemma_fundamental_div_mod(q + 3, 7);
        vstd::arithmetic::div_mod::lemma_fundamental_div_mod_converse(
            q + 3 + 101_806_635, 7, k + 14_543_805, (q + 3) % 7);
    }
    ((shifted + 3) % 7 + 1) as u8
}

/// `(a - b).num_seconds()` on two chrono date-times.
pub fn seconds_between(a: LocalDateTime, b: LocalDateTime) -> (r: i64)
    requires
        -2 * TIMESTAMP_BOUND <= a.secs <= 2 * TIMESTAMP_BOUND,
        -2 * TIMESTAMP_BOUND <= b.secs <= 2 * TIMESTAMP_BOUND,
        a.nanos < 2_000_000_000,
        b.nanos < 2_000_000_000,
    ensures
        r == whole_seconds_between(a, b),
{
    let sa = second_of_day(a);
    let sb = second_of_day(b);
    let carry: i128 = if sa > sb && b.nanos >= 1_000_000_000 {
        1
    } else if sa < sb && a.nanos >= 1_000_000_000 {
        -1
    } else {
        0
    };
    let t: i128 = ((a.secs as i128) - (b.secs as i128) + carry) * 1_000_000_000 + (a.nanos as i128)
        - (b.nanos as i128);
    assert(t == nanos_between(a, b));
    if t >= 0 {
        assert(t / 1_000_000_000 <= 4 * TIMESTAMP_BOUND + 4) by (nonlinear_arith)
            requires 0 <= t <= (4 * TIMESTAMP_BOUND + 1) * 1_000_000_000 + 2_000_000_000;
        (t / 1_000_000_000) as i64
    } else {
        let u: i128 = -t;
        assert(u / 1_000_000_000 <= 4 * TIMESTAMP_BOUND + 4) by (nonlinear_arith)
            requires 0 <= u <= (4 * TIMESTAMP_BOUND + 1) * 1_000_000_000 + 2_000_000_000;
        -((u / 1_000_000_000) as i64)
    }
}

/// What chrono's `NaiveDateTime::parse_from_str(text, TIME_FMT)` reads from
/// `text`: the timestamp and nanosecond fraction of the date and time, if the
/// text matches the format.
pub uninterp spec fn parsed_local_time(text: Seq<char>) -> Option<(i64, u32)>;

/// What chrono's `format(TIME_FMT)` writes for the date and time with the given
/// timestamp and fraction, if chrono can represent it.
pub uninterp spec fn formatted_local_time(secs: i64, nanos: u32) -> Option<Seq<char>>;

/// A parsed pair as a `LocalDateTime`.
pub open spec fn as_local(p: Option<(i64, u32)>) -> Option<LocalDateTime> {
    match p {
        Some((secs, nanos)) => Some(LocalDateTime { secs, nanos }),
        None => None,
    }
}

/// The current local wall-clock time: `std::time::SystemTime::now()` converted
/// by chrono's `From<SystemTime> for DateTime<Local>` and `naive_local()`, which
/// also take clocks before 1970. What it returns depends on the clock and the
/// zone; the contract claims only that the value is a chrono date and time
/// (`naive_local` gives nothing else) without a leap second (the conversion
/// keeps the fraction of `SystemTime`, which stays below one second). chrono
/// panics only on a clock that lies beyond its own range of years
/// (-262143..=262142), which a Linux clock (1970 to 2262) never reads.
#[verifier::external_body]
pub(crate) fn local_now() -> (r: LocalDateTime)
    ensures
        r.is_chrono(),
        r.in_range(),
        r.nanos < 1_000_000_000,
{
    let n = chrono::DateTime::<chrono::Local>::from(std::time::SystemTime::now()).naive_local().and_utc();
    LocalDateTime { secs: n.timestamp(), nanos: n.timestamp_subsec_nanos() }
}

/// Reads a stored time stamp with chrono's `NaiveDateTime::parse_from_str` and
/// `TIME_FMT`. The contract claims that the result is the named parse of the
/// text, and that a parsed value is a chrono date and time.
#[verifier::external_body]
pub(crate) fn parse_local_dt(s: &str) -> (r: Option<LocalDateTime>)
    ensures
        r == as_local(parsed_local_time(s@)),
        r matches Some(t) ==> t.is_chrono() && t.in_range(),
{
    match chrono::NaiveDateTime::parse_from_str(s, TIME_FMT) {
        Ok(n) => Some(LocalDateTime {
            secs: n.and_utc().timestamp(),
            nanos: n.and_utc().timestamp_subsec_nanos(),
        }),
        Err(_) => None,
    }
}

/// Writes `t` with chrono's `DateTime::from_timestamp` and `format(TIME_FMT)`.
/// The contract claims that the text is the named format of `t`; that it is
/// there for every chrono date and time (`from_timestamp` accepts exactly
/// those); and that chrono reads it back as `t` cut to the microsecond (`%.6f`
/// writes the first six digits of the fraction, `%S` writes a leap second as
/// 60, and `%Y` writes the year with its sign outside 0..=9999, all of which
/// `parse_from_str` reads back).
#[verifier::external_body]
pub(crate) fn fmt_time(t: LocalDateTime) -> (r: Option<String>)
    ensures
        match r {
            Some(s) => formatted_local_time(t.secs, t.nanos) == Some(s@),
            None => formatted_local_time(t.secs, t.nanos) is None,
        },
        t.is_chrono() ==> r is Some,
        r matches Some(s) ==> as_local(parsed_local_time(s@)) == Some(micro_stamp(t)),
{
    match chrono::DateTime::from_timestamp(t.secs, t.nanos) {
        Some(d) => Some(d.naive_utc().format(TIME_FMT).to_string()),
        None => None,
    }
}

/// Milliseconds since 1970-01-01T00:00:00 UTC of the clock reading `t` (negative
/// before 1970), from chrono's `From<SystemTime> for DateTime<Local>` and
/// `timestamp_millis()`. The contract claims that it is the millisecond count of
/// a chrono date and time. chrono panics only on a reading beyond its own range
/// of years, which a Linux clock never gives.
#[verifier::external_body]
fn local_millis_of(t: &std::time::SystemTime) -> (r: i64)
    ensures
        1000 * MIN_TIMESTAMP <= r < 1000 * (MAX_TIMESTAMP + 1),
{
    chrono::DateTime::<chrono::Local>::from(*t).timestamp_millis()
}

/// The system clock's reading, from `std::time::SystemTime::now()`. Nothing is
/// claimed of it.
#[verifier::external_body]
fn system_now() -> std::time::SystemTime {
    std::time::SystemTime::now()
}

/// The time from the Unix epoch to `t`, from `SystemTime::duration_since`, or
/// nothing when `t` is before the epoch. Nothing is claimed of the value.
#[verifier::external_body]
fn since_epoch(t: &std::time::SystemTime) -> Option<std::time::Duration> {
    t.duration_since(std::time::UNIX_EPOCH).ok()
}

/// The whole milliseconds of `d`, from `Duration::as_millis`. Nothing is
/// claimed of the value.
#[verifier::external_body]
fn whole_millis(d: &std::time::Duration) -> u128 {
    d.as_millis()
}

/// An id for a new schedule taken from the clock reading `t`: its milliseconds
/// since 1970 as chrono counts them, cut to 64 bits (a reading before 1970
/// counts below zero and wraps to the top of the range).
fn rand_fallback_id(t: &std::time::SystemTime) -> (r: u64)
    ensures
        r < 1000 * (MAX_TIMESTAMP + 1) || r >= 0x1_0000_0000_0000_0000 + 1000 * MIN_TIMESTAMP,
{
    let m = local_millis_of(t);
    // `m as u64`: a count below zero wraps to the top of the range
    if m >= 0 {
        m as u64
    } else {
        0xFFFF_FFFF_FFFF_FFFFu64 - ((-(m + 1)) as u64)
    }
}

/// The id of a new schedule: the milliseconds since the Unix epoch, or, when
/// the system clock reads before the epoch, the same reading counted by chrono.
pub(crate) fn new_schedule_id() -> u64 {
    let t = system_now();
    match since_epoch(&t) {
        Some(d) => whole_millis(&d) as u64,
        None => rand_fallback_id(&t),
    }
}

} // verus!
