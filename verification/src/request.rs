use vstd::prelude::*;
use crate::config::{Schedule, ScheduleView, spec_default_days, spec_default_duration, default_days};

verus! {

/// What a request to add a schedule carries, field by field as JSON gives it:
/// `time` when it is a string, `duration_minutes` when it is a whole number
/// that fits in 64 bits, and `days` when it is an array, each entry read the
/// same way as the duration.
#[derive(Debug)]
pub struct SchedulePayload {
    pub time: Option<String>,
    pub duration_minutes: Option<u64>,
    pub days: Option<Vec<Option<u64>>>,
}

pub struct SchedulePayloadView {
    pub time: Option<Seq<char>>,
    pub duration_minutes: Option<u64>,
    pub days: Option<Seq<Option<u64>>>,
}

impl View for SchedulePayload {
    type V = SchedulePayloadView;

    open spec fn view(&self) -> SchedulePayloadView {
        SchedulePayloadView {
            time: match self.time {
                Some(t) => Some(t@),
                None => None,
            },
            duration_minutes: self.duration_minutes,
            days: match self.days {
                Some(d) => Some(d@),
                None => None,
            },
        }
    }
}

/// The day numbers kept from an array: its whole-number entries in order, each
/// cut to its low 8 bits.
pub open spec fn kept_days(entries: Seq<Option<u64>>) -> Seq<u8>
    decreases entries.len(),
{
    if entries.len() == 0 {
        Seq::empty()
    } else {
        let rest = kept_days(entries.drop_last());
        match entries.last() {
            Some(v) => rest.push(v as u8),
            None => rest,
        }
    }
}

/// The schedule a request makes under the given id: the time text (empty when
/// missing), the duration cut to 32 bits (30 when missing), the kept days
/// (every day when missing).
pub open spec fn schedule_from_request(p: SchedulePayloadView, id: u64) -> ScheduleView {
    ScheduleView {
        id,
        time: match p.time {
            Some(t) => t,
            None => Seq::empty(),
        },
        duration_minutes: match p.duration_minutes {
            Some(v) => v as u32,
            None => spec_default_duration(),
        },
        days: match p.days {
            Some(e) => kept_days(e),
            None => spec_default_days(),
        },
    }
}

fn days_from_entries(entries: &Vec<Option<u64>>) -> (r: Vec<u8>)
    ensures
        r@ == kept_days(entries@),
{
    let mut r: Vec<u8> = Vec::new();
    let n = entries.len();
    for i in 0..n
        invariant
            n == entries@.len(),
            r@ == kept_days(entries@.take(i as int)),
    {
        assert(entries@.take(i as int + 1).drop_last() =~= entries@.take(i as int));
        match entries[i] {
            Some(v) => r.push(v as u8),
            None => {},
        }
    }
    assert(entries@.take(n as int) =~= entries@);
    r
}

/// The schedule that `payload` asks for, under the id `id`.
pub fn schedule_from_payload(payload: &SchedulePayload, id: u64) -> (r: Schedule)
    ensures
        r@ == schedule_from_request(payload@, id),
{
    let time = match &payload.time {
        Some(t) => t.clone(),
        None => String::new(),
    };
    let duration_minutes: u32 = match payload.duration_minutes {
        Some(v) => v as u32,
        None => 30,
    };
    let days = match &payload.days {
        Some(e) => days_from_entries(e),
        None => default_days(),
    };
    Schedule { id, time, duration_minutes, days }
}

/// A schedule request is taken only when it carries its time as a string.
pub fn accepts_schedule_payload(payload: &SchedulePayload) -> (r: bool)
    ensures
        r == payload.time is Some,
{
    payload.time.is_some()
}

/// The arguments of a manual setting read from its request: the state (off when
/// missing) and the duration cut to 32 bits.
pub fn manual_request(state: Option<bool>, duration: Option<u64>) -> (r: (bool, Option<u32>))
    ensures
        r.0 == (state == Some(true)),
        r.1 == match duration {
            Some(v) => Some(v as u32),
            None => None::<u32>,
        },
{
    let s = match state {
        Some(b) => b,
        None => false,
    };
    let d = match duration {
        Some(v) => Some(v as u32),
        None => None,
    };
    (s, d)
}

} // verus!
