use furtherance::autosave::AutosaveRecord;
use furtherance::clock::{Clock, Timestamp};
use furtherance::idle::{IdleChoice, IdleTracker};
use furtherance::record::TaskRecord;
use furtherance::timer::{Mode, Phase, PomodoroChoice, Settings, TickOutcome, TimerEngine, Toggle};

fn plain() -> Settings {
    Settings {
        pomodoro: false,
        pomodoro_minutes: 25,
        autosave: false,
        autosave_minutes: 3,
        notify_of_idle: false,
        idle_minutes: 5,
    }
}

fn task(name: &str, tags: &str, start: i64, stop: i64) -> TaskRecord {
    TaskRecord {
        task_name: name.to_string(),
        tag_list: tags.to_string(),
        start_time: Timestamp::new(start),
        stop_time: Timestamp::new(stop),
    }
}

#[test]
fn new_engine_is_at_rest() {
    let e = TimerEngine::new();
    assert_eq!(e.phase, Phase::Stopped);
    assert!(!e.running());
    assert_eq!(e.counter, 0);
    assert_eq!(e.elapsed(), 0);
    assert_eq!(e.idle, IdleTracker::new());
}

#[test]
fn start_is_gated_on_task_name() {
    let mut e = TimerEngine::new();
    assert!(!e.start("", &plain(), Timestamp::new(10)));
    assert!(!e.start("   #tag", &plain(), Timestamp::new(10)));
    assert_eq!(e, TimerEngine::new());
    assert!(e.start("Write report #Work #work", &plain(), Timestamp::new(10)));
    assert_eq!(e.phase, Phase::RunningStopwatch);
    assert_eq!(e.task_name, "Write report");
    assert_eq!(e.tag_list, "work");
    assert_eq!(e.start_time, Timestamp::new(10));
    assert!(e.running());
}

#[test]
fn start_while_running_changes_nothing() {
    let mut e = TimerEngine::new();
    assert!(e.start("A", &plain(), Timestamp::new(10)));
    e.tick(&plain(), None, Timestamp::new(11));
    let before = e.clone();
    assert!(!e.start("B", &plain(), Timestamp::new(12)));
    assert_eq!(e, before);
}

#[test]
fn stopwatch_counts_up() {
    let mut e = TimerEngine::new();
    e.start("A", &plain(), Timestamp::new(0));
    for k in 1..=3661u64 {
        let out = e.tick(&plain(), None, Timestamp::new(k as i64));
        assert!(out.ticked);
        assert!(!out.expired);
        assert_eq!(e.counter, k);
    }
    let out = e.tick(&plain(), None, Timestamp::new(3662));
    assert_eq!(out.display, Clock { hours: 1, minutes: 1, seconds: 2 });
    assert_eq!(e.elapsed(), 3662);
}

#[test]
fn tick_while_stopped_is_a_no_op() {
    let mut e = TimerEngine::new();
    let out = e.tick(&plain(), Some(1000), Timestamp::new(5));
    assert_eq!(
        out,
        TickOutcome {
            ticked: false,
            display: Clock { hours: 0, minutes: 0, seconds: 0 },
            idle_resumed: None,
            autosave_due: false,
            expired: false,
        }
    );
    assert_eq!(e, TimerEngine::new());
}

#[test]
fn pomodoro_expires_after_1500_ticks() {
    let s = Settings { pomodoro: true, ..plain() };
    let mut e = TimerEngine::new();
    assert!(e.start("Focus", &s, Timestamp::new(0)));
    assert_eq!(e.phase, Phase::RunningPomodoro);
    assert_eq!(e.counter, 1500);
    let mut expirations = 0;
    for k in 1..=1499i64 {
        let out = e.tick(&s, None, Timestamp::new(k));
        assert!(!out.expired);
        assert_eq!(e.phase, Phase::RunningPomodoro);
        assert_eq!(e.counter, (1500 - k) as u64);
    }
    assert_eq!(e.tick(&s, None, Timestamp::new(1499)).display, Clock { hours: 0, minutes: 0, seconds: 0 });
    assert_eq!(e.phase, Phase::PomodoroExpired);
    expirations += 1;
    assert_eq!(e.expired_at, Timestamp::new(1499));
    for k in 0..10i64 {
        let out = e.tick(&s, None, Timestamp::new(1501 + k));
        assert!(!out.ticked);
        if out.expired {
            expirations += 1;
        }
    }
    assert_eq!(expirations, 1);
    assert_eq!(e.phase, Phase::PomodoroExpired);
}

#[test]
fn pomodoro_expiry_is_reported_by_the_tick() {
    let s = Settings { pomodoro: true, pomodoro_minutes: 1, ..plain() };
    let mut e = TimerEngine::new();
    e.start("Focus", &s, Timestamp::new(0));
    for k in 1..60i64 {
        assert!(!e.tick(&s, None, Timestamp::new(k)).expired);
    }
    let out = e.tick(&s, None, Timestamp::new(60));
    assert!(out.expired && out.ticked);
    assert!(!e.running());
}

#[test]
fn pomodoro_stop_records_the_session() {
    let s = Settings { pomodoro: true, pomodoro_minutes: 1, ..plain() };
    let mut e = TimerEngine::new();
    e.start("Focus #Deep", &s, Timestamp::new(1000));
    for k in 1..=60i64 {
        e.tick(&s, None, Timestamp::new(1000 + k));
    }
    assert_eq!(e.resolve_pomodoro(PomodoroChoice::Stop, Timestamp::new(5000)), Some(task("Focus", "deep", 1000, 1060)));
    assert_eq!(e.phase, Phase::Stopped);
    assert_eq!(e.counter, 0);
    assert_eq!(e.task_name, "");
}

#[test]
fn pomodoro_continue_keeps_start_and_counts_up() {
    let s = Settings { pomodoro: true, pomodoro_minutes: 1, ..plain() };
    let mut e = TimerEngine::new();
    e.start("Focus", &s, Timestamp::new(1000));
    for k in 1..=60i64 {
        e.tick(&s, None, Timestamp::new(1000 + k));
    }
    assert_eq!(e.resolve_pomodoro(PomodoroChoice::Continue, Timestamp::new(1075)), None);
    assert_eq!(e.phase, Phase::RunningStopwatch);
    assert_eq!(e.counter, 75);
    assert_eq!(e.start_time, Timestamp::new(1000));
    let out = e.tick(&s, None, Timestamp::new(1076));
    assert_eq!(out.display, Clock { hours: 0, minutes: 1, seconds: 16 });
    assert_eq!(e.stop(Timestamp::new(1080)), Some(task("Focus", "", 1000, 1080)));
}

#[test]
fn resolve_pomodoro_outside_expiry_is_a_no_op() {
    let mut e = TimerEngine::new();
    e.start("A", &plain(), Timestamp::new(0));
    let before = e.clone();
    assert_eq!(e.resolve_pomodoro(PomodoroChoice::Stop, Timestamp::new(5)), None);
    assert_eq!(e, before);
}

#[test]
fn stop_records_now() {
    let mut e = TimerEngine::new();
    e.start("Write report #Work", &plain(), Timestamp::new(100));
    e.tick(&plain(), None, Timestamp::new(101));
    assert_eq!(e.stop(Timestamp::new(160)), Some(task("Write report", "work", 100, 160)));
    assert_eq!(e.phase, Phase::Stopped);
}

#[test]
fn stop_when_stopped_is_a_no_op() {
    let mut e = TimerEngine::new();
    assert_eq!(e.stop(Timestamp::new(5)), None);
    assert_eq!(e, TimerEngine::new());
    e.start("A", &plain(), Timestamp::new(0));
    assert!(e.stop(Timestamp::new(9)).is_some());
    let rest = e.clone();
    assert_eq!(e.stop(Timestamp::new(10)), None);
    assert_eq!(e, rest);
}

#[test]
fn idle_discard_ends_session_at_idle_start() {
    let s = Settings { notify_of_idle: true, idle_minutes: 5, ..plain() };
    let t0: i64 = 1_000_000;
    let mut e = TimerEngine::new();
    e.start("Write", &s, Timestamp::new(t0));
    for k in 1..900i64 {
        assert_eq!(e.tick(&s, Some(0), Timestamp::new(t0 + k)).idle_resumed, None);
    }
    assert_eq!(e.tick(&s, Some(300), Timestamp::new(t0 + 900)).idle_resumed, None);
    assert_eq!(e.idle.idle_start_time, Some(Timestamp::new(t0 + 600)));
    assert_eq!(e.tick(&s, Some(700), Timestamp::new(t0 + 1300)).idle_resumed, None);
    assert_eq!(e.tick(&s, Some(1), Timestamp::new(t0 + 1301)).idle_resumed, Some(701));
    assert_eq!(e.tick(&s, Some(2), Timestamp::new(t0 + 1302)).idle_resumed, None);
    let rec = e.resolve_idle(IdleChoice::Discard, Timestamp::new(t0 + 99_999));
    assert_eq!(rec, Some(task("Write", "", t0, t0 + 600)));
    assert_eq!(e.phase, Phase::Stopped);
    assert_eq!(e.idle, IdleTracker::new());
}

#[test]
fn idle_continue_keeps_timing() {
    let s = Settings { notify_of_idle: true, idle_minutes: 5, ..plain() };
    let mut e = TimerEngine::new();
    e.start("Write", &s, Timestamp::new(0));
    e.tick(&s, Some(300), Timestamp::new(400));
    assert_eq!(e.tick(&s, Some(0), Timestamp::new(401)).idle_resumed, Some(301));
    assert_eq!(e.resolve_idle(IdleChoice::Continue, Timestamp::new(402)), None);
    assert!(e.running());
    assert_eq!(e.idle, IdleTracker::new());
    assert_eq!(e.counter, 2);
    assert_eq!(e.stop(Timestamp::new(500)), Some(task("Write", "", 0, 500)));
}

#[test]
fn resolve_idle_without_prompt_is_a_no_op() {
    let mut e = TimerEngine::new();
    e.start("Write", &plain(), Timestamp::new(0));
    let before = e.clone();
    assert_eq!(e.resolve_idle(IdleChoice::Discard, Timestamp::new(5)), None);
    assert_eq!(e, before);
}

#[test]
fn idle_is_not_checked_when_notification_is_off() {
    let mut e = TimerEngine::new();
    e.start("Write", &plain(), Timestamp::new(0));
    e.tick(&plain(), Some(10_000), Timestamp::new(1));
    assert_eq!(e.idle, IdleTracker::new());
}

#[test]
fn save_task_applies_subtract_idle() {
    let s = Settings { notify_of_idle: true, idle_minutes: 1, ..plain() };
    let mut e = TimerEngine::new();
    e.start("Write #a", &s, Timestamp::new(0));
    e.tick(&s, Some(60), Timestamp::new(100));
    e.set_subtract_idle(true);
    assert_eq!(e.save_task(Timestamp::new(500)), task("Write", "a", 0, 40));
    assert_eq!(e.phase, Phase::Stopped);
    e.start("Next", &s, Timestamp::new(600));
    assert_eq!(e.save_task(Timestamp::new(700)), task("Next", "", 600, 700));
}

#[test]
fn reset_idle_clears_tracker_only() {
    let s = Settings { notify_of_idle: true, idle_minutes: 1, ..plain() };
    let mut e = TimerEngine::new();
    e.start("Write", &s, Timestamp::new(0));
    e.tick(&s, Some(60), Timestamp::new(100));
    assert!(e.idle.idle_time_reached);
    e.reset_idle();
    assert_eq!(e.idle, IdleTracker::new());
    assert_eq!(e.counter, 1);
    assert!(e.running());
}

#[test]
fn autosave_is_due_on_multiples_of_the_interval() {
    let s = Settings { autosave: true, autosave_minutes: 1, ..plain() };
    let mut e = TimerEngine::new();
    e.start("Write", &s, Timestamp::new(0));
    for k in 1..=180u64 {
        let out = e.tick(&s, None, Timestamp::new(k as i64));
        assert_eq!(out.autosave_due, k % 60 == 0);
    }
}

#[test]
fn autosave_in_pomodoro_counts_elapsed_time() {
    let s = Settings { pomodoro: true, pomodoro_minutes: 2, autosave: true, autosave_minutes: 1, ..plain() };
    let mut e = TimerEngine::new();
    e.start("Write", &s, Timestamp::new(0));
    for k in 1..=120u64 {
        let out = e.tick(&s, None, Timestamp::new(k as i64));
        assert_eq!(out.autosave_due, k % 60 == 0);
        assert_eq!(e.elapsed(), k);
    }
}

#[test]
fn autosave_never_due_when_off_or_without_interval() {
    let off = plain();
    let zero = Settings { autosave: true, autosave_minutes: 0, ..plain() };
    let mut a = TimerEngine::new();
    let mut b = TimerEngine::new();
    a.start("Write", &off, Timestamp::new(0));
    b.start("Write", &zero, Timestamp::new(0));
    for k in 1..=200i64 {
        assert!(!a.tick(&off, None, Timestamp::new(k)).autosave_due);
        assert!(!b.tick(&zero, None, Timestamp::new(k)).autosave_due);
    }
}

#[test]
fn autosave_record_renders_times() {
    let mut e = TimerEngine::new();
    assert_eq!(e.autosave_record(Timestamp::new(0)), None);
    e.start("Write report #Work", &plain(), Timestamp::new(0));
    assert_eq!(
        e.autosave_record(Timestamp::new(1_646_125_200)),
        Some(AutosaveRecord::new("Write report", "1970-01-01T00:00:00+00:00", "2022-03-01T09:00:00+00:00", "work"))
    );
    assert_eq!(e.autosave_record(Timestamp::new(i64::MAX)), None);
}

#[test]
fn autosave_record_survives_the_file() {
    let mut e = TimerEngine::new();
    e.start("Write report #Work #q3", &plain(), Timestamp::new(1_646_125_200));
    let rec = e.autosave_record(Timestamp::new(1_646_125_500)).unwrap();
    assert_eq!(AutosaveRecord::decode(&rec.encode()), Ok(rec));
}

#[test]
fn refresh_timer_shows_session_length() {
    let e = TimerEngine::new();
    assert_eq!(e.refresh_timer(&plain()), Clock { hours: 0, minutes: 0, seconds: 0 });
    let s = Settings { pomodoro: true, pomodoro_minutes: 90, ..plain() };
    assert_eq!(e.refresh_timer(&s), Clock { hours: 1, minutes: 30, seconds: 0 });
    let s = Settings { pomodoro: true, pomodoro_minutes: 25, ..plain() };
    assert_eq!(e.refresh_timer(&s), Clock { hours: 0, minutes: 25, seconds: 0 });
}

#[test]
fn duplicate_task_starts_when_not_running() {
    let mut e = TimerEngine::new();
    assert_eq!(
        e.duplicate_task("Write report", "work #q3", &plain(), Timestamp::new(7)),
        Some("Write report #work #q3".to_string())
    );
    assert!(e.running());
    assert_eq!(e.task_name, "Write report");
    assert_eq!(e.tag_list, "work #q3");
    assert_eq!(e.start_time, Timestamp::new(7));
    let before = e.clone();
    assert_eq!(e.duplicate_task("Other", "", &plain(), Timestamp::new(8)), None);
    assert_eq!(e, before);
}

#[test]
fn zero_length_pomodoro_expires_on_first_tick() {
    let s = Settings { pomodoro: true, pomodoro_minutes: 0, ..plain() };
    let mut e = TimerEngine::new();
    e.start("Focus", &s, Timestamp::new(0));
    assert!(e.tick(&s, None, Timestamp::new(1)).expired);
    assert_eq!(e.phase, Phase::PomodoroExpired);
}

#[test]
fn toggle_starts_then_stops() {
    let mut e = TimerEngine::new();
    assert_eq!(e.toggle("  ", &plain(), Timestamp::new(1)), Toggle::Rejected);
    assert_eq!(e, TimerEngine::new());
    assert_eq!(e.toggle("Write #A", &plain(), Timestamp::new(2)), Toggle::Started);
    assert!(e.running());
    e.tick(&plain(), None, Timestamp::new(3));
    assert_eq!(
        e.toggle("ignored", &plain(), Timestamp::new(9)),
        Toggle::Stopped(task("Write", "a", 2, 9))
    );
    assert_eq!(e.phase, Phase::Stopped);
}

#[test]
fn toggle_is_rejected_while_pomodoro_prompt_is_open() {
    let s = Settings { pomodoro: true, pomodoro_minutes: 0, ..plain() };
    let mut e = TimerEngine::new();
    e.toggle("Focus", &s, Timestamp::new(0));
    e.tick(&s, None, Timestamp::new(1));
    let before = e.clone();
    assert_eq!(e.toggle("Other", &s, Timestamp::new(2)), Toggle::Rejected);
    assert_eq!(e, before);
}

#[test]
fn mode_follows_phase() {
    let s = Settings { pomodoro: true, pomodoro_minutes: 1, ..plain() };
    let mut e = TimerEngine::new();
    assert_eq!(e.mode(), Mode::Stopwatch);
    e.start("Focus", &s, Timestamp::new(0));
    assert_eq!(e.mode(), Mode::Pomodoro);
    for k in 1..=60i64 {
        e.tick(&s, None, Timestamp::new(k));
    }
    assert_eq!(e.mode(), Mode::Pomodoro);
    e.resolve_pomodoro(PomodoroChoice::Continue, Timestamp::new(61));
    assert_eq!(e.mode(), Mode::Stopwatch);
}
