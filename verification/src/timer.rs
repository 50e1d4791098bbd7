//! The timer engine: a state machine advanced by one-second ticks and by
//! the user's start, stop and prompt answers.

use vstd::prelude::*;
use vstd::string::*;
use crate::autosave::{rfc3339_string, rfc3339_text, AutosaveRecord, RecordText};
use crate::clock::{clock_from_seconds, clock_of, minutes_to_seconds, seconds_of_minutes, Clock, Timestamp};
use crate::idle::{IdleChoice, IdleTracker};
use crate::record::{TaskRecord, TaskText};
use crate::tags::{duplicate_text, duplicate_text_of, normalize, tag_list_of, task_name_of};

verus! {

/// Where the engine stands.
#[derive(Clone, Copy, Debug, PartialEq, Eq, Structural)]
pub enum Phase {
    /// No task is being timed.
    Stopped,
    /// Counting up.
    RunningStopwatch,
    /// Counting down a Pomodoro session.
    RunningPomodoro,
    /// The countdown reached zero; the user has not yet answered.
    PomodoroExpired,
}

/// The direction in which the counter moves.
#[derive(Clone, Copy, Debug, PartialEq, Eq, Structural)]
pub enum Mode {
    /// The counter holds the seconds elapsed.
    Stopwatch,
    /// The counter holds the seconds remaining.
    Pomodoro,
}

/// What the user answers when a Pomodoro session is over.
#[derive(Clone, Copy, Debug, PartialEq, Eq, Structural)]
pub enum PomodoroChoice {
    /// Save the session as a task.
    Stop,
    /// Keep timing the same task, counting up from the session's start.
    Continue,
}

/// What a press of the start button did.
#[derive(Clone, Debug, PartialEq, Eq)]
pub enum Toggle {
    /// A task was started.
    Started,
    /// The running task was stopped; its record is to be stored and the
    /// recovery file deleted.
    Stopped(TaskRecord),
    /// Nothing runs and the input names no task, or a Pomodoro prompt is
    /// still unanswered: nothing changed.
    Rejected,
}

/// The options that the engine reads.
#[derive(Clone, Copy, Debug, PartialEq, Eq, Structural)]
pub struct Settings {
    pub pomodoro: bool,
    pub pomodoro_minutes: i64,
    pub autosave: bool,
    pub autosave_minutes: i64,
    pub notify_of_idle: bool,
    pub idle_minutes: i64,
}

/// What one tick asks of the surrounding program.
#[derive(Clone, Copy, Debug, PartialEq, Eq)]
pub struct TickOutcome {
    /// Whether the timer was running, so that the tick counted.
    pub ticked: bool,
    /// The value to show on the watch face.
    pub display: Clock,
    /// The user returned from an idle span of this many seconds: ask whether
    /// to discard it.
    pub idle_resumed: Option<u64>,
    /// A recovery record is to be written now.
    pub autosave_due: bool,
    /// The Pomodoro session ended with this tick: ask whether to stop.
    pub expired: bool,
}

/// The timer together with the task it times and its idle tracker.
#[derive(Clone, Debug, PartialEq, Eq)]
pub struct TimerEngine {
    pub phase: Phase,
    /// Seconds elapsed while counting up, seconds remaining while counting
    /// down.
    pub counter: u64,
    /// The length of the Pomodoro session that is running or has expired.
    pub session_seconds: u64,
    pub start_time: Timestamp,
    /// When the last Pomodoro session expired.
    pub expired_at: Timestamp,
    pub task_name: String,
    pub tag_list: String,
    pub idle: IdleTracker,
}

/// Phase and counter after one tick. The counters hold at their bounds
/// instead of overflowing; a countdown that reaches zero expires.
pub open spec fn tick_step(phase: Phase, counter: u64) -> (Phase, u64) {
    match phase {
        Phase::RunningStopwatch => (
            Phase::RunningStopwatch,
            if counter < u64::MAX {
                (counter + 1) as u64
            } else {
                counter
            },
        ),
        Phase::RunningPomodoro => if counter > 1 {
            (Phase::RunningPomodoro, (counter - 1) as u64)
        } else {
            (Phase::PomodoroExpired, 0u64)
        },
        _ => (phase, counter),
    }
}

/// Phase and counter after `n` ticks.
pub open spec fn tick_steps(phase: Phase, counter: u64, n: nat) -> (Phase, u64)
    decreases n,
{
    if n == 0 {
        (phase, counter)
    } else {
        let before = tick_steps(phase, counter, (n - 1) as nat);
        tick_step(before.0, before.1)
    }
}

/// A Pomodoro session of `total` seconds is still counting down after fewer
/// than `total` ticks, expires with tick number `total`, and stays expired
/// however many ticks follow.
pub proof fn pomodoro_expires_on_time(total: u64, n: nat)
    requires
        total >= 1,
    ensures
        n < total ==> tick_steps(Phase::RunningPomodoro, total, n) == (
            Phase::RunningPomodoro,
            (total - n) as u64,
        ),
        n >= total ==> tick_steps(Phase::RunningPomodoro, total, n) == (Phase::PomodoroExpired, 0u64),
    decreases n,
{
    if n > 0 {
        pomodoro_expires_on_time(total, (n - 1) as nat);
    }
}

/// A stopwatch shows `n` seconds after `n` ticks.
pub proof fn stopwatch_counts_ticks(n: nat)
    requires
        n <= u64::MAX,
    ensures
        tick_steps(Phase::RunningStopwatch, 0, n) == (Phase::RunningStopwatch, n as u64),
    decreases n,
{
    if n > 0 {
        stopwatch_counts_ticks((n - 1) as nat);
    }
}

/// The idle threshold in seconds.
pub open spec fn idle_threshold(settings: Settings) -> u64 {
    seconds_of_minutes(settings.idle_minutes)
}

/// Whether a recovery record is due after `elapsed` seconds: autosaving is
/// on, the interval is at least a minute, and `elapsed` is a multiple of it.
pub open spec fn autosave_due(settings: Settings, elapsed: u64) -> bool {
    settings.autosave && seconds_of_minutes(settings.autosave_minutes) > 0 && elapsed
        % seconds_of_minutes(settings.autosave_minutes) == 0
}

/// The watch face while nothing is timed: the length of a Pomodoro session,
/// or zero.
pub open spec fn rest_clock_of(settings: Settings) -> Clock {
    if settings.pomodoro {
        clock_of(seconds_of_minutes(settings.pomodoro_minutes))
    } else {
        clock_of(0)
    }
}

impl TimerEngine {
    /// Whether ticks count.
    pub open spec fn is_running(&self) -> bool {
        self.phase == Phase::RunningStopwatch || self.phase == Phase::RunningPomodoro
    }

    /// What the counter means in this phase.
    pub open spec fn mode_spec(&self) -> Mode {
        match self.phase {
            Phase::RunningPomodoro | Phase::PomodoroExpired => Mode::Pomodoro,
            _ => Mode::Stopwatch,
        }
    }

    /// Seconds of the task timed so far.
    pub open spec fn elapsed_seconds(&self) -> u64 {
        match self.phase {
            Phase::RunningPomodoro | Phase::PomodoroExpired => if self.counter
                <= self.session_seconds {
                (self.session_seconds - self.counter) as u64
            } else {
                0
            },
            _ => self.counter,
        }
    }

    /// The stop time that is recorded for a session that ends at `at`: the
    /// start of the idle span where the user chose to discard it.
    pub open spec fn recorded_stop(&self, at: Timestamp) -> Timestamp {
        match self.idle.idle_start_time {
            Some(t) => if self.idle.subtract_idle {
                t
            } else {
                at
            },
            None => at,
        }
    }

    /// The record of the task being timed, with the given stop time.
    pub open spec fn record_text(&self, stop_time: Timestamp) -> TaskText {
        TaskText {
            task_name: self.task_name@,
            tag_list: self.tag_list@,
            start_time: self.start_time,
            stop_time,
        }
    }

    /// The rest state: stopped, nothing counted, no task, idle tracker at its
    /// baseline.
    pub open spec fn at_rest(&self) -> bool {
        &&& self.phase == Phase::Stopped
        &&& self.counter == 0
        &&& self.session_seconds == 0
        &&& self.task_name@.len() == 0
        &&& self.tag_list@.len() == 0
        &&& self.idle == IdleTracker::baseline()
    }

    /// The engine's invariant: stopped means at rest, a task in progress has
    /// a name, a countdown never exceeds its session and has reached zero
    /// once expired, and the idle tracker is well formed.
    pub open spec fn wf(&self) -> bool {
        &&& self.idle.wf()
        &&& self.phase == Phase::Stopped ==> self.at_rest()
        &&& self.phase != Phase::Stopped ==> self.task_name@.len() > 0
        &&& self.phase == Phase::RunningPomodoro ==> self.counter <= self.session_seconds
        &&& self.phase == Phase::PomodoroExpired ==> self.counter == 0
    }

    /// This engine is `before` brought to rest.
    pub open spec fn finished_from(&self, before: &TimerEngine) -> bool {
        &&& self.at_rest()
        &&& self.start_time == before.start_time
        &&& self.expired_at == before.expired_at
    }

    /// Whether a start on `input` is accepted: nothing is being timed and the
    /// input names a task.
    pub open spec fn start_accepts(&self, input: Seq<char>) -> bool {
        self.phase == Phase::Stopped && task_name_of(input).len() > 0
    }

    /// This engine is `before` after a start on `input` at `now`.
    pub open spec fn started_from(
        &self,
        before: &TimerEngine,
        input: Seq<char>,
        settings: Settings,
        now: Timestamp,
    ) -> bool {
        if before.start_accepts(input) {
            &&& self.phase == if settings.pomodoro {
                Phase::RunningPomodoro
            } else {
                Phase::RunningStopwatch
            }
            &&& self.session_seconds == if settings.pomodoro {
                seconds_of_minutes(settings.pomodoro_minutes)
            } else {
                0
            }
            &&& self.counter == self.session_seconds
            &&& self.start_time == now
            &&& self.expired_at == before.expired_at
            &&& self.task_name@ == task_name_of(input)
            &&& self.tag_list@ == tag_list_of(input)
            &&& self.idle == IdleTracker::baseline()
        } else {
            *self == *before
        }
    }

    /// An engine at rest.
    pub fn new() -> (e: TimerEngine)
        ensures
            e.at_rest(),
            e.wf(),
            e.start_time.secs == 0,
            e.expired_at.secs == 0,
    {
        TimerEngine {
            phase: Phase::Stopped,
            counter: 0,
            session_seconds: 0,
            start_time: Timestamp { secs: 0 },
            expired_at: Timestamp { secs: 0 },
            task_name: String::new(),
            tag_list: String::new(),
            idle: IdleTracker::new(),
        }
    }

    /// Whether ticks count.
    pub fn running(&self) -> (b: bool)
        ensures
            b == self.is_running(),
    {
        match self.phase {
            Phase::RunningStopwatch => true,
            Phase::RunningPomodoro => true,
            _ => false,
        }
    }

    /// What the counter means in this phase.
    pub fn mode(&self) -> (m: Mode)
        ensures
            m == self.mode_spec(),
    {
        match self.phase {
            Phase::RunningPomodoro | Phase::PomodoroExpired => Mode::Pomodoro,
            _ => Mode::Stopwatch,
        }
    }

    /// Seconds of the task timed so far.
    pub fn elapsed(&self) -> (s: u64)
        ensures
            s == self.elapsed_seconds(),
    {
        match self.phase {
            Phase::RunningPomodoro | Phase::PomodoroExpired => if self.counter
                <= self.session_seconds {
                self.session_seconds - self.counter
            } else {
                0
            },
            _ => self.counter,
        }
    }

    /// The watch face to show while nothing is timed.
    pub fn refresh_timer(&self, settings: &Settings) -> (c: Clock)
        ensures
            c == rest_clock_of(*settings),
    {
        if settings.pomodoro {
            clock_from_seconds(minutes_to_seconds(settings.pomodoro_minutes))
        } else {
            clock_from_seconds(0)
        }
    }

    /// Back to the active idle baseline.
    pub fn reset_idle(&mut self)
        ensures
            *final(self) == (TimerEngine { idle: IdleTracker::baseline(), ..*old(self) }),
            old(self).wf() ==> final(self).wf(),
    {
        self.idle.reset_idle();
    }

    /// Sets or clears the request to end the session where idling began.
    pub fn set_subtract_idle(&mut self, val: bool)
        ensures
            *final(self) == (TimerEngine {
                idle: IdleTracker { subtract_idle: val, ..old(self).idle },
                ..*old(self)
            }),
            old(self).wf() && (val ==> old(self).idle.idle_time_reached) ==> final(self).wf(),
    {
        self.idle.set_subtract_idle(val);
    }

    /// Ends the task being timed as of `at` and hands out its record: the
    /// stored name, tags and start time, and as stop time `at`, or the start
    /// of the idle span if the user chose to discard it. The engine returns
    /// to rest.
    pub fn save_task(&mut self, at: Timestamp) -> (rec: TaskRecord)
        ensures
            rec@ == old(self).record_text(old(self).recorded_stop(at)),
            final(self).finished_from(old(self)),
            final(self).wf(),
    {
        let stop_time = match self.idle.idle_start_time {
            Some(t) => if self.idle.subtract_idle {
                t
            } else {
                at
            },
            None => at,
        };
        let rec = TaskRecord {
            task_name: self.task_name.clone(),
            tag_list: self.tag_list.clone(),
            start_time: self.start_time,
            stop_time,
        };
        self.phase = Phase::Stopped;
        self.counter = 0;
        self.session_seconds = 0;
        self.task_name = String::new();
        self.tag_list = String::new();
        self.idle.reset_idle();
        rec
    }

    /// Starts timing the task that `input` names, at `now`.
    ///
    /// Accepted only while stopped and only if the normalised task name is
    /// not empty; otherwise nothing changes. With the Pomodoro option the
    /// timer counts down from the configured session length, else it counts
    /// up from zero.
    pub fn start(&mut self, input: &str, settings: &Settings, now: Timestamp) -> (started: bool)
        ensures
            started == old(self).start_accepts(input@),
            final(self).started_from(old(self), input@, *settings, now),
            old(self).wf() ==> final(self).wf(),
    {
        if self.phase != Phase::Stopped {
            return false;
        }
        let parts = normalize(input);
        if parts.0.as_str().is_empty() {
            return false;
        }
        let session: u64 = if settings.pomodoro {
            minutes_to_seconds(settings.pomodoro_minutes)
        } else {
            0
        };
        self.phase = if settings.pomodoro {
            Phase::RunningPomodoro
        } else {
            Phase::RunningStopwatch
        };
        self.session_seconds = session;
        self.counter = session;
        self.start_time = now;
        self.task_name = parts.0;
        self.tag_list = parts.1;
        self.idle.reset_idle();
        true
    }

    /// Advances the timer by one second.
    ///
    /// While the timer is not running the tick changes nothing. Otherwise
    /// the counter moves by one, the idle tracker is fed `idle_sample` if
    /// idle notification is on, and the outcome says what to show and which
    /// prompts and writes are due.
    pub fn tick(&mut self, settings: &Settings, idle_sample: Option<u64>, now: Timestamp) -> (out:
        TickOutcome)
        ensures
            !old(self).is_running() ==> *final(self) == *old(self) && out == (TickOutcome {
                ticked: false,
                display: clock_of(old(self).counter),
                idle_resumed: None,
                autosave_due: false,
                expired: false,
            }),
            old(self).is_running() ==> {
                &&& (final(self).phase, final(self).counter) == tick_step(
                    old(self).phase,
                    old(self).counter,
                )
                &&& final(self).idle == (if settings.notify_of_idle {
                    old(self).idle.after_check(idle_sample, idle_threshold(*settings), now)
                } else {
                    old(self).idle
                })
                &&& final(self).expired_at == (if final(self).phase == Phase::PomodoroExpired {
                    now
                } else {
                    old(self).expired_at
                })
                &&& final(self).start_time == old(self).start_time
                &&& final(self).session_seconds == old(self).session_seconds
                &&& final(self).task_name == old(self).task_name
                &&& final(self).tag_list == old(self).tag_list
                &&& out.ticked
                &&& out.display == clock_of(final(self).counter)
                &&& out.idle_resumed == (if settings.notify_of_idle {
                    old(self).idle.check_event(idle_sample, idle_threshold(*settings), now)
                } else {
                    None
                })
                &&& out.autosave_due == autosave_due(*settings, final(self).elapsed_seconds())
                &&& out.expired == (final(self).phase == Phase::PomodoroExpired)
            },
            old(self).wf() ==> final(self).wf(),
    {
        if !self.running() {
            return TickOutcome {
                ticked: false,
                display: clock_from_seconds(self.counter),
                idle_resumed: None,
                autosave_due: false,
                expired: false,
            };
        }
        match self.phase {
            Phase::RunningStopwatch => {
                if self.counter < u64::MAX {
                    self.counter = self.counter + 1;
                }
            },
            _ => {
                if self.counter > 0 {
                    self.counter = self.counter - 1;
                }
            },
        }
        let display = clock_from_seconds(self.counter);
        let mut idle_resumed: Option<u64> = None;
        if settings.notify_of_idle {
            idle_resumed = self.idle.check(idle_sample, minutes_to_seconds(settings.idle_minutes), now);
        }
        let elapsed: u64 = self.elapsed();
        let interval: u64 = minutes_to_seconds(settings.autosave_minutes);
        let due = settings.autosave && interval > 0 && elapsed % interval == 0;
        let mut expired = false;
        if self.phase == Phase::RunningPomodoro && self.counter == 0 {
            self.phase = Phase::PomodoroExpired;
            self.expired_at = now;
            expired = true;
        }
        TickOutcome { ticked: true, display, idle_resumed, autosave_due: due, expired }
    }

    /// Stops the timer at `now` and hands out the finished task.
    ///
    /// While the timer is not running this changes nothing and hands out
    /// nothing. The recorded stop time is `now`, or the start of the idle
    /// span if the user chose to discard it. The engine returns to rest.
    pub fn stop(&mut self, now: Timestamp) -> (rec: Option<TaskRecord>)
        ensures
            !old(self).is_running() ==> rec is None && *final(self) == *old(self),
            old(self).is_running() ==> rec is Some && rec->0@ == old(self).record_text(
                old(self).recorded_stop(now),
            ) && final(self).finished_from(old(self)),
            old(self).is_running() && old(self).wf() ==> rec->0@.task_name.len() > 0,
            old(self).wf() ==> final(self).wf(),
    {
        if !self.running() {
            return None;
        }
        Some(self.save_task(now))
    }

    /// The start button: starts a task on `input` while nothing runs, stops
    /// and hands out the running task otherwise.
    pub fn toggle(&mut self, input: &str, settings: &Settings, now: Timestamp) -> (out: Toggle)
        ensures
            old(self).is_running() ==> (out matches Toggle::Stopped(r) && r@ == old(
                self,
            ).record_text(old(self).recorded_stop(now))) && final(self).finished_from(old(self)),
            !old(self).is_running() ==> final(self).started_from(old(self), input@, *settings, now),
            !old(self).is_running() && old(self).start_accepts(input@) ==> out is Started,
            !old(self).is_running() && !old(self).start_accepts(input@) ==> out is Rejected,
            old(self).wf() ==> final(self).wf(),
    {
        if self.running() {
            Toggle::Stopped(self.save_task(now))
        } else if self.start(input, settings, now) {
            Toggle::Started
        } else {
            Toggle::Rejected
        }
    }

    /// Whether the user's return from idle has been announced and awaits an
    /// answer.
    pub open spec fn idle_prompt_pending(&self) -> bool {
        self.idle.idle_time_reached && self.idle.idle_notified
    }

    /// Applies the user's answer to the idle prompt, given at `now`.
    ///
    /// Without a pending prompt nothing changes. `Continue` resets the idle
    /// tracker and keeps timing. `Discard` ends a running session at the
    /// start of the idle span, whatever `now` is, and hands out its record;
    /// with no session running it only resets the idle tracker.
    pub fn resolve_idle(&mut self, choice: IdleChoice, now: Timestamp) -> (rec: Option<TaskRecord>)
        ensures
            !old(self).idle_prompt_pending() ==> rec is None && *final(self) == *old(self),
            old(self).idle_prompt_pending() && !(choice == IdleChoice::Discard && old(
                self,
            ).is_running()) ==> rec is None && *final(self) == (TimerEngine {
                idle: IdleTracker::baseline(),
                ..*old(self)
            }),
            old(self).idle_prompt_pending() && choice == IdleChoice::Discard && old(
                self,
            ).is_running() ==> rec is Some && rec->0@ == old(self).record_text(
                match old(self).idle.idle_start_time {
                    Some(t) => t,
                    None => now,
                },
            ) && final(self).finished_from(old(self)),
            old(self).wf() ==> final(self).wf(),
    {
        if !self.idle.prompt_pending() {
            return None;
        }
        match choice {
            IdleChoice::Discard => {
                if self.running() {
                    self.idle.set_subtract_idle(true);
                    Some(self.save_task(now))
                } else {
                    self.idle.reset_idle();
                    None
                }
            },
            IdleChoice::Continue => {
                self.idle.reset_idle();
                None
            },
        }
    }

    /// Applies the user's answer to the end of a Pomodoro session, given at
    /// `now`.
    ///
    /// Outside the expired phase nothing changes. `Stop` hands out the
    /// session as a task that ended when the countdown did. `Continue` keeps
    /// the start time and counts up from the seconds that have passed since
    /// then.
    pub fn resolve_pomodoro(&mut self, choice: PomodoroChoice, now: Timestamp) -> (rec: Option<
        TaskRecord,
    >)
        ensures
            old(self).phase != Phase::PomodoroExpired ==> rec is None && *final(self) == *old(self),
            old(self).phase == Phase::PomodoroExpired && choice == PomodoroChoice::Stop ==> rec
                is Some && rec->0@ == old(self).record_text(
                old(self).recorded_stop(old(self).expired_at),
            ) && final(self).finished_from(old(self)),
            old(self).phase == Phase::PomodoroExpired && choice == PomodoroChoice::Continue ==> rec
                is None && *final(self) == (TimerEngine {
                phase: Phase::RunningStopwatch,
                counter: now.seconds_since_spec(old(self).start_time),
                idle: IdleTracker::baseline(),
                ..*old(self)
            }),
            old(self).wf() ==> final(self).wf(),
    {
        if self.phase != Phase::PomodoroExpired {
            return None;
        }
        match choice {
            PomodoroChoice::Stop => {
                let at = self.expired_at;
                Some(self.save_task(at))
            },
            PomodoroChoice::Continue => {
                self.phase = Phase::RunningStopwatch;
                self.counter = now.seconds_since(self.start_time);
                self.idle.reset_idle();
                None
            },
        }
    }

    /// The recovery record of the task in progress, with `now` as its stop
    /// time. There is none while stopped, nor where a time has no RFC 3339
    /// text.
    pub fn autosave_record(&self, now: Timestamp) -> (out: Option<AutosaveRecord>)
        ensures
            out is Some <==> self.phase != Phase::Stopped && rfc3339_text(
                self.start_time.secs as int,
            ) is Some && rfc3339_text(now.secs as int) is Some,
            out is Some ==> out->0@ == (RecordText {
                task_name: self.task_name@,
                start_time: rfc3339_text(self.start_time.secs as int)->0,
                stop_time: rfc3339_text(now.secs as int)->0,
                tag_list: self.tag_list@,
            }),
    {
        if self.phase == Phase::Stopped {
            return None;
        }
        match (rfc3339_string(self.start_time), rfc3339_string(now)) {
            (Some(start), Some(stop)) => Some(
                AutosaveRecord::new(
                    self.task_name.as_str(),
                    start.as_str(),
                    stop.as_str(),
                    self.tag_list.as_str(),
                ),
            ),
            _ => None,
        }
    }

    /// Starts a saved task again, at `now`.
    ///
    /// While the timer runs nothing happens and nothing is returned.
    /// Otherwise the input text of the task is returned and a start on it is
    /// attempted.
    pub fn duplicate_task(
        &mut self,
        task_name: &str,
        tags: &str,
        settings: &Settings,
        now: Timestamp,
    ) -> (text: Option<String>)
        ensures
            old(self).is_running() ==> text is None && *final(self) == *old(self),
            !old(self).is_running() ==> text is Some && text->0@ == duplicate_text_of(
                task_name@,
                tags@,
            ) && final(self).started_from(old(self), text->0@, *settings, now),
            old(self).wf() ==> final(self).wf(),
    {
        if self.running() {
            return None;
        }
        let text = duplicate_text(task_name, tags);
        let _ = self.start(text.as_str(), settings, now);
        Some(text)
    }
}

} // verus!
