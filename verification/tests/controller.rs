use iot_switch::clock::LocalDateTime;
use iot_switch::config::{default_days, default_duration, default_pin, Config, ManualOverride, Schedule};
use iot_switch::controller::{override_has_run_out, Controller};
use iot_switch::request::{
    accepts_schedule_payload, manual_request, schedule_from_payload, SchedulePayload,
};

const MON_2024_01_01: i64 = 1_704_067_200;

fn monday(h: i64, m: i64, s: i64) -> LocalDateTime {
    LocalDateTime { secs: MON_2024_01_01 + h * 3600 + m * 60 + s, nanos: 0 }
}

fn schedule(id: u64, time: &str, minutes: u32, days: Vec<u8>) -> Schedule {
    Schedule { id, time: time.to_string(), duration_minutes: minutes, days }
}

fn config_with(schedules: Vec<Schedule>, manual_override: Option<ManualOverride>) -> Config {
    Config { relay_gpio: 17, schedules, manual_override, allow_shutdown: false }
}

fn controller(config: Config, now: LocalDateTime) -> Controller {
    let (c, _) = Controller::load_at(config, now);
    c
}

#[test]
fn loading_at_the_current_time_steps_once() {
    let (c, changed) = Controller::load(Config::default());
    assert!(!changed);
    assert!(!c.relay_on());
}

#[test]
fn defaults() {
    assert_eq!(default_duration(), 30);
    assert_eq!(default_days(), vec![1, 2, 3, 4, 5, 6, 7]);
    assert_eq!(default_pin(), 17);
    let c = Config::default();
    assert_eq!(c.relay_gpio, 17);
    assert!(c.schedules.is_empty());
    assert!(c.manual_override.is_none());
    assert!(!c.allow_shutdown);
}

#[test]
fn schedule_requests_fill_in_defaults_and_cut_numbers() {
    let empty = SchedulePayload { time: None, duration_minutes: None, days: None };
    assert!(!accepts_schedule_payload(&empty));
    let s = schedule_from_payload(&empty, 9);
    assert_eq!((s.id, s.time.as_str(), s.duration_minutes), (9, "", 30));
    assert_eq!(s.days, vec![1, 2, 3, 4, 5, 6, 7]);

    let p = SchedulePayload {
        time: Some("07:15".to_string()),
        duration_minutes: Some((1u64 << 32) + 5),
        days: Some(vec![Some(1), None, Some(300), Some(7)]),
    };
    assert!(accepts_schedule_payload(&p));
    let s = schedule_from_payload(&p, 3);
    assert_eq!(s.time, "07:15");
    assert_eq!(s.duration_minutes, 5);
    assert_eq!(s.days, vec![1, 44, 7]);
}

#[test]
fn manual_requests() {
    assert_eq!(manual_request(None, None), (false, None));
    assert_eq!(manual_request(Some(true), Some(15)), (true, Some(15)));
    assert_eq!(manual_request(Some(false), Some((1u64 << 32) + 2)), (false, Some(2)));
}

#[test]
fn a_schedule_holds_the_relay_on_inside_its_window() {
    let cfg = config_with(vec![schedule(1, "06:00", 30, vec![1, 2, 3, 4, 5])], None);
    let mut c = controller(cfg, monday(5, 59, 59));
    assert!(!c.relay_on());
    assert!(!c.tick_at(monday(6, 0, 0)));
    assert!(c.relay_on());
    assert!(c.pin_low());
    let st = c.status_at(monday(6, 10, 0), None);
    assert_eq!(st.active_schedule.as_ref().map(|s| s.id), Some(1));
    assert_eq!(st.relay_remaining_seconds, Some(20 * 60));
    c.tick_at(monday(6, 30, 0));
    assert!(!c.relay_on());
    assert!(!c.pin_low());
    let st = c.status_at(monday(6, 30, 0), None);
    assert!(st.active_schedule.is_none());
    assert_eq!(st.relay_remaining_seconds, None);
    assert_eq!(st.relay_started_at, None);
}

#[test]
fn a_schedule_only_runs_on_its_days() {
    let cfg = config_with(vec![schedule(1, "06:00", 30, vec![6, 7])], None);
    let mut c = controller(cfg, monday(6, 10, 0));
    assert!(!c.relay_on());
    c.tick_at(LocalDateTime { secs: monday(6, 10, 0).secs + 5 * 86400, nanos: 0 });
    assert!(c.relay_on());
}

#[test]
fn the_first_matching_schedule_is_the_active_one() {
    let cfg = config_with(
        vec![
            schedule(1, "bad", 30, vec![1]),
            schedule(2, "05:00", 120, vec![1]),
            schedule(3, "06:00", 30, vec![1]),
        ],
        None,
    );
    let c = controller(cfg, monday(6, 5, 0));
    let st = c.status_at(monday(6, 5, 0), None);
    assert_eq!(st.active_schedule.map(|s| s.id), Some(2));
    assert_eq!(st.relay_remaining_seconds, Some(55 * 60));
}

#[test]
fn a_window_past_midnight_ends_at_midnight() {
    let cfg = config_with(vec![schedule(1, "23:30", 60, vec![1, 2])], None);
    let mut c = controller(cfg, monday(23, 45, 0));
    assert!(c.relay_on());
    c.tick_at(monday(24, 10, 0));
    assert!(!c.relay_on());
}

#[test]
fn a_start_past_the_day_never_opens() {
    // 1093:00 lies past every minute of the day, whatever 16-bit arithmetic would wrap it to
    let cfg = config_with(vec![schedule(1, "1093:00", 10, vec![1]), schedule(2, "23:99", 30, vec![1])], None);
    let mut c = controller(cfg, monday(0, 50, 0));
    assert!(!c.relay_on());
    c.tick_at(monday(0, 44, 0));
    assert!(!c.relay_on());
    c.tick_at(monday(23, 59, 0));
    assert!(!c.relay_on());
    // minutes past 59 still count when the start falls within the day: 05:75 is 06:15
    let cfg = config_with(vec![schedule(3, "05:75", 10, vec![1])], None);
    let c = controller(cfg, monday(6, 20, 0));
    assert!(c.relay_on());
}

#[test]
fn a_timed_override_set_now_runs_out_after_its_minutes() {
    let t = LocalDateTime { secs: monday(6, 0, 0).secs, nanos: 400_000_700 };
    let mut c = controller(Config::default(), t);
    c.set_manual_at(true, Some(15), t);
    assert!(c.relay_on());
    assert!(!c.tick_at(monday(6, 14, 59)));
    assert!(c.relay_on());
    // the stamp keeps the microseconds: 06:00:00.400000
    assert!(!c.tick_at(LocalDateTime { secs: monday(6, 15, 0).secs, nanos: 399_999_999 }));
    assert!(c.relay_on());
    assert!(c.tick_at(LocalDateTime { secs: monday(6, 15, 0).secs, nanos: 400_000_000 }));
    assert!(!c.relay_on());
    assert!(c.config().manual_override.is_none());
}

#[test]
fn a_zero_minute_override_clears_at_once() {
    let mut c = controller(Config::default(), monday(6, 0, 0));
    c.set_manual_at(true, Some(0), monday(6, 0, 0));
    assert!(!c.relay_on());
    assert!(c.config().manual_override.is_none());
}

#[test]
fn status_agrees_with_itself() {
    let cfg = config_with(vec![schedule(1, "06:00", 30, vec![1])], None);
    let mut c = controller(cfg, monday(6, 10, 0));
    let on = c.status_at(monday(6, 10, 0), Controller::gpio_level(Some(c.pin_low())));
    assert!(on.relay_on && on.active_schedule.is_some() && on.relay_started_at.is_some());
    assert_eq!(on.gpio_level, Some(0));
    c.tick_at(monday(7, 0, 0));
    let off = c.status_at(monday(7, 0, 0), Controller::gpio_level(Some(c.pin_low())));
    assert!(!off.relay_on && off.active_schedule.is_none() && off.relay_started_at.is_none());
    assert_eq!(off.relay_remaining_seconds, None);
    assert_eq!(off.gpio_level, Some(1));
}

#[test]
fn an_override_that_is_off_locks_the_relay_off() {
    let cfg = config_with(vec![schedule(1, "06:00", 30, vec![1])], None);
    let mut c = controller(cfg, monday(6, 10, 0));
    assert!(c.relay_on());
    c.set_manual_at(false, Some(10), monday(6, 11, 0));
    assert!(!c.relay_on());
    let mo = c.config().manual_override.as_ref().unwrap();
    assert!(!mo.state && mo.until.is_none() && mo.duration.is_none());
    assert!(!c.tick_at(monday(6, 12, 0)));
    assert!(!c.relay_on());
    c.clear_manual_at(monday(6, 13, 0));
    assert!(c.relay_on());
    assert!(c.config().manual_override.is_none());
}

#[test]
fn an_override_without_duration_never_expires() {
    let mut c = controller(Config::default(), monday(8, 0, 0));
    c.set_manual_at(true, None, monday(8, 0, 0));
    assert!(c.relay_on());
    assert!(c.config().manual_override.as_ref().unwrap().until.is_none());
    assert!(!c.tick_at(LocalDateTime { secs: monday(8, 0, 0).secs + 400 * 86400, nanos: 0 }));
    assert!(c.relay_on());
    assert_eq!(c.status_at(monday(9, 0, 0), None).relay_remaining_seconds, None);
}

#[test]
fn a_timed_override_expires_after_its_duration() {
    let start = LocalDateTime { secs: monday(8, 0, 0).secs, nanos: 250_000_000 };
    let mut c = controller(Config::default(), start);
    c.set_manual_at(true, Some(1), start);
    assert!(c.relay_on());
    assert_eq!(
        c.config().manual_override.as_ref().unwrap().until.as_deref(),
        Some("2024-01-01T08:00:00.250000")
    );
    let st = c.status_at(monday(8, 0, 30), None);
    assert_eq!(st.relay_remaining_seconds, Some(31));
    assert_eq!(st.relay_started_at.as_deref(), Some("2024-01-01T08:00:00.250000"));
    assert!(!c.tick_at(LocalDateTime { secs: monday(8, 1, 0).secs, nanos: 249_999_999 }));
    assert!(c.relay_on());
    assert!(c.tick_at(LocalDateTime { secs: monday(8, 1, 0).secs, nanos: 250_000_000 }));
    assert!(!c.relay_on());
    assert!(c.config().manual_override.is_none());
}

#[test]
fn an_expired_override_hands_back_to_the_schedules() {
    let mo = ManualOverride {
        state: true,
        until: Some("2024-01-01T05:00:00.000000".to_string()),
        duration: Some(30),
    };
    let cfg = config_with(vec![schedule(4, "06:00", 30, vec![1])], Some(mo));
    let (mut c, changed) = Controller::load_at(cfg, monday(6, 5, 0));
    assert!(changed);
    assert!(c.relay_on());
    assert_eq!(c.status_at(monday(6, 5, 0), None).active_schedule.map(|s| s.id), Some(4));
}

#[test]
fn stamps_are_written_and_read_in_the_stored_format() {
    let mo = ManualOverride {
        state: true,
        until: Some("2024-01-01 08:00".to_string()),
        duration: Some(1),
    };
    // a stamp in another format never reads as a time, so the override holds
    let mut c = controller(config_with(vec![], Some(mo)), monday(9, 0, 0));
    assert!(c.relay_on());
    c.set_manual_at(true, Some(90), LocalDateTime { secs: monday(7, 5, 9).secs, nanos: 987_654_321 });
    assert_eq!(
        c.config().manual_override.as_ref().unwrap().until.as_deref(),
        Some("2024-01-01T07:05:09.987654")
    );
    // the stamp is read back to the microsecond: 90 minutes later less 1 µs it still holds
    assert!(!c.tick_at(LocalDateTime { secs: monday(8, 35, 9).secs, nanos: 987_653_999 }));
    assert!(c.tick_at(LocalDateTime { secs: monday(8, 35, 9).secs, nanos: 987_654_000 }));
}

#[test]
fn the_current_time_drives_the_public_steps() {
    let cfg = config_with(vec![schedule(1, "00:00", 65535, vec![1, 2, 3, 4, 5, 6, 7])], None);
    let (mut c, changed) = Controller::load(cfg);
    assert!(!changed);
    // a window of 65535 minutes from midnight covers every minute of every day
    assert!(c.relay_on());
    assert!(!c.tick());
    assert!(c.relay_on());
    let st = c.status(None);
    assert!(st.relay_started_at.is_some());
    c.set_manual(false, None);
    assert!(!c.relay_on());
    c.clear_manual();
    assert!(c.relay_on());
}

#[test]
fn an_unreadable_stamp_keeps_the_override_on() {
    let mo = ManualOverride { state: true, until: Some("yesterday".to_string()), duration: Some(1) };
    let mut c = controller(config_with(vec![], Some(mo)), monday(6, 0, 0));
    assert!(!c.tick_at(monday(23, 0, 0)));
    assert!(c.relay_on());
    assert_eq!(c.status_at(monday(23, 0, 0), None).relay_remaining_seconds, None);
}

#[test]
fn stepping_twice_at_one_moment_is_stepping_once() {
    let mo = ManualOverride {
        state: true,
        until: Some("2024-01-01T05:00:00.000000".to_string()),
        duration: Some(30),
    };
    let cfg = config_with(vec![schedule(4, "06:00", 30, vec![1])], Some(mo));
    let (mut c, changed) = Controller::load_at(cfg, monday(6, 5, 0));
    assert!(changed);
    let first = c.status_at(monday(6, 5, 0), None);
    assert!(!c.tick_at(monday(6, 5, 0)));
    let second = c.status_at(monday(6, 5, 0), None);
    assert_eq!(format!("{:?}", first), format!("{:?}", second));
}

#[test]
fn adding_and_removing_schedules() {
    let mut c = controller(Config::default(), monday(6, 0, 0));
    let p = SchedulePayload { time: Some("06:00".to_string()), duration_minutes: Some(45), days: None };
    let s = c.add_schedule_with_id(p, 77);
    assert_eq!((s.id, s.duration_minutes), (77, 45));
    assert_eq!(c.get_schedules().len(), 1);
    let p2 = SchedulePayload { time: Some("18:00".to_string()), duration_minutes: None, days: None };
    let s2 = c.add_schedule(p2);
    assert_eq!(s2.duration_minutes, 30);
    assert_eq!(c.get_schedules().len(), 2);
    assert!(c.remove_schedule(77));
    assert!(!c.remove_schedule(77));
    let left = c.get_schedules();
    assert_eq!(left.len(), 1);
    assert_eq!(left[0].time, "18:00");
}

#[test]
fn status_reports_the_settings_and_the_pin() {
    let mut cfg = config_with(vec![schedule(1, "06:00", 30, vec![1])], None);
    cfg.allow_shutdown = true;
    cfg.relay_gpio = 22;
    let c = controller(cfg, monday(6, 10, 0));
    assert!(c.allow_shutdown());
    let st = c.status_at(monday(6, 10, 0), Controller::gpio_level(Some(true)));
    assert!(st.relay_on);
    assert_eq!(st.relay_gpio, 22);
    assert!(st.allow_shutdown);
    assert_eq!(st.gpio_level, Some(0));
    assert_eq!(st.schedules.len(), 1);
    assert_eq!(st.relay_started_at.as_deref(), Some("2024-01-01T06:10:00.000000"));
    assert_eq!(Controller::gpio_level(Some(false)), Some(1));
    assert_eq!(Controller::gpio_level(None), None);
    let now = c.status(None);
    assert!(now.gpio_level.is_none());
    assert!(now.relay_on);
    assert_eq!(now.relay_started_at.as_deref(), Some("2024-01-01T06:10:00.000000"));
}

#[test]
fn remaining_time_of_a_schedule_begun_yesterday() {
    // a window that began at 23:50 on the day before and runs 30 minutes
    let cfg = config_with(vec![schedule(1, "23:50", 30, vec![1, 2])], None);
    let mut c = controller(cfg, monday(23, 55, 0));
    assert!(c.relay_on());
    // the active schedule stays until the next step; remaining counts from yesterday's start
    let st = c.status_at(monday(24, 5, 0), None);
    assert_eq!(st.relay_remaining_seconds, Some(15 * 60));
    c.tick_at(monday(24, 5, 0));
    assert!(!c.relay_on());
}

#[test]
fn time_left_never_drops_below_zero() {
    let mut c = controller(Config::default(), monday(8, 0, 0));
    c.set_manual_at(true, Some(1), monday(8, 0, 0));
    assert_eq!(c.status_at(monday(8, 0, 45), None).relay_remaining_seconds, Some(15));
    // not yet stepped past the end: the relay is still on and nothing is left
    assert_eq!(c.status_at(monday(8, 5, 0), None).relay_remaining_seconds, Some(0));
    c.set_manual_at(false, None, monday(8, 6, 0));
    assert_eq!(c.status_at(monday(8, 6, 0), None).relay_remaining_seconds, None);
}

#[test]
fn removing_a_schedule_just_added_restores_the_list() {
    let cfg = config_with(vec![schedule(1, "06:00", 30, vec![1]), schedule(2, "07:00", 30, vec![1])], None);
    let mut c = controller(cfg, monday(5, 0, 0));
    let p = SchedulePayload { time: Some("08:00".to_string()), duration_minutes: None, days: Some(vec![]) };
    let s = c.add_schedule_with_id(p, 3);
    assert!(s.days.is_empty());
    assert_eq!(c.get_schedules().len(), 3);
    assert!(c.remove_schedule(3));
    let ids: Vec<u64> = c.get_schedules().iter().map(|s| s.id).collect();
    assert_eq!(ids, vec![1, 2]);
}

#[test]
fn override_run_out_counts_whole_seconds() {
    let start = LocalDateTime { secs: monday(6, 0, 0).secs, nanos: 500_000_000 };
    assert!(!override_has_run_out(2, start, LocalDateTime { secs: monday(6, 2, 0).secs, nanos: 499_999_999 }));
    assert!(override_has_run_out(2, start, LocalDateTime { secs: monday(6, 2, 0).secs, nanos: 500_000_000 }));
    assert!(override_has_run_out(0, start, start));
    assert!(!override_has_run_out(1, start, monday(5, 0, 0)));
}

#[test]
fn an_override_stamped_in_a_leap_second_reads_back_and_runs_out_as_chrono_counts() {
    // 2016-12-31T23:59:60.5, a leap second
    let leap = LocalDateTime { secs: 1_483_228_799, nanos: 1_500_000_000 };
    let mut c = controller(Config::default(), leap);
    c.set_manual_at(true, Some(1), leap);
    assert!(c.relay_on());
    assert_eq!(
        c.config().manual_override.as_ref().unwrap().until.as_deref(),
        Some("2016-12-31T23:59:60.500000")
    );
    let start = chrono::NaiveDateTime::parse_from_str("2016-12-31T23:59:60.500000", "%Y-%m-%dT%H:%M:%S%.6f").unwrap();
    for (secs, nanos) in [(1_483_228_859i64, 400_000_000u32), (1_483_228_859, 500_000_000), (1_483_228_860, 0)] {
        let now = chrono::DateTime::from_timestamp(secs, nanos).unwrap().naive_utc();
        let expected = (now - start).num_seconds() >= 60;
        let mut d = controller(Config::default(), leap);
        d.set_manual_at(true, Some(1), leap);
        assert_eq!(d.tick_at(LocalDateTime { secs, nanos }), expected, "{}", now);
    }
}
