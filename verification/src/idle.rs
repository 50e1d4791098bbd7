//! Idle detection: turns periodic samples of the system idle time into one
//! "idle confirmed" transition and at most one "user returned" notification
//! per idle episode.

use vstd::prelude::*;
use crate::clock::Timestamp;

verus! {

/// What the user answers when told that the timer ran while they were away.
#[derive(Clone, Copy, Debug, PartialEq, Eq, Structural)]
pub enum IdleChoice {
    /// Do not count the idle span: the session ends where idling began.
    Discard,
    /// Count the idle span as worked time and keep the clock running.
    Continue,
}

/// Idle bookkeeping between two resets.
#[derive(Clone, Copy, Debug, PartialEq, Eq)]
pub struct IdleTracker {
    /// The last idle sample, in seconds.
    pub idle_seconds: u64,
    /// Whether a sample reached the threshold since the last reset.
    pub idle_time_reached: bool,
    /// Whether the return from idle has been announced since the last reset.
    pub idle_notified: bool,
    /// The apparent moment at which idling began.
    pub idle_start_time: Option<Timestamp>,
    /// Whether the next stop ends the session at `idle_start_time`.
    pub subtract_idle: bool,
}

/// The sample used when the idle source cannot be queried: one second, which
/// never counts as idle.
pub open spec fn effective_sample(sample: Option<u64>) -> u64 {
    match sample {
        Some(d) => d,
        None => 1,
    }
}

impl IdleTracker {
    /// The state right after a reset: active, nothing stored.
    pub open spec fn baseline() -> IdleTracker {
        IdleTracker {
            idle_seconds: 0,
            idle_time_reached: false,
            idle_notified: false,
            idle_start_time: None,
            subtract_idle: false,
        }
    }

    /// The start of the idle span is stored exactly while idle is confirmed;
    /// a notification or a pending subtraction presupposes a confirmed idle.
    pub open spec fn wf(self) -> bool {
        &&& self.idle_time_reached <==> self.idle_start_time is Some
        &&& self.idle_notified ==> self.idle_time_reached
        &&& self.subtract_idle ==> self.idle_time_reached
    }

    /// Whether a check with sample `d` announces the user's return.
    pub open spec fn resumes(self, d: u64, threshold: u64) -> bool {
        d < threshold && self.idle_time_reached && !self.idle_notified
    }

    /// Whether a check with sample `d` confirms a new idle episode.
    pub open spec fn confirms(self, d: u64, threshold: u64) -> bool {
        d >= threshold && !self.idle_time_reached
    }

    /// The tracker after one check.
    pub open spec fn after_check(self, sample: Option<u64>, threshold: u64, now: Timestamp) -> IdleTracker {
        let d = effective_sample(sample);
        IdleTracker {
            idle_seconds: d,
            idle_time_reached: self.idle_time_reached || d >= threshold,
            idle_notified: self.idle_notified || self.resumes(d, threshold),
            idle_start_time: if self.confirms(d, threshold) {
                Some(now.minus_seconds_spec(threshold))
            } else {
                self.idle_start_time
            },
            subtract_idle: self.subtract_idle,
        }
    }

    /// What one check reports: the length of the idle span when the user's
    /// return is announced, nothing otherwise.
    pub open spec fn check_event(self, sample: Option<u64>, threshold: u64, now: Timestamp) -> Option<u64> {
        if self.resumes(effective_sample(sample), threshold) {
            match self.idle_start_time {
                Some(t) => Some(now.seconds_since_spec(t)),
                None => Some(0u64),
            }
        } else {
            None
        }
    }

    pub fn new() -> (t: IdleTracker)
        ensures
            t == IdleTracker::baseline(),
            t.wf(),
    {
        IdleTracker {
            idle_seconds: 0,
            idle_time_reached: false,
            idle_notified: false,
            idle_start_time: None,
            subtract_idle: false,
        }
    }

    /// Back to the active baseline.
    pub fn reset_idle(&mut self)
        ensures
            *final(self) == IdleTracker::baseline(),
            final(self).wf(),
    {
        self.idle_seconds = 0;
        self.idle_notified = false;
        self.idle_time_reached = false;
        self.idle_start_time = None;
        self.subtract_idle = false;
    }

    /// Sets or clears the request to end the session where idling began.
    pub fn set_subtract_idle(&mut self, val: bool)
        ensures
            *final(self) == (IdleTracker { subtract_idle: val, ..*old(self) }),
    {
        self.subtract_idle = val;
    }

    /// Whether the user's return has been announced and awaits an answer.
    pub fn prompt_pending(&self) -> (b: bool)
        ensures
            b == (self.idle_time_reached && self.idle_notified),
    {
        self.idle_time_reached && self.idle_notified
    }

    /// Feeds one idle sample, taken at `now`, against a threshold in seconds.
    ///
    /// A sample at or above the threshold confirms idle once and stores
    /// `now - threshold` as its start. The first later sample below the
    /// threshold announces the return, with the length of the idle span; no
    /// further sample does until the tracker is reset. A failed query
    /// (`None`) counts as one second.
    pub fn check(&mut self, sample: Option<u64>, threshold: u64, now: Timestamp) -> (event: Option<u64>)
        ensures
            *final(self) == old(self).after_check(sample, threshold, now),
            event == old(self).check_event(sample, threshold, now),
            event is Some <==> old(self).resumes(effective_sample(sample), threshold),
            final(self).idle_time_reached == (old(self).idle_time_reached || effective_sample(sample)
                >= threshold),
            old(self).confirms(effective_sample(sample), threshold) ==> final(self).idle_start_time
                == Some(now.minus_seconds_spec(threshold)),
            old(self).wf() ==> final(self).wf(),
    {
        let d: u64 = match sample {
            Some(v) => v,
            None => 1,
        };
        let mut event: Option<u64> = None;
        if d < threshold && self.idle_time_reached && !self.idle_notified {
            self.idle_notified = true;
            event = match self.idle_start_time {
                Some(t) => Some(now.seconds_since(t)),
                None => Some(0),
            };
        }
        self.idle_seconds = d;
        if d >= threshold && !self.idle_time_reached {
            self.idle_time_reached = true;
            self.idle_start_time = Some(now.minus_seconds(threshold));
        }
        event
    }
}

/// A check keeps the tracker well formed.
pub proof fn check_keeps_wf(t: IdleTracker, sample: Option<u64>, threshold: u64, now: Timestamp)
    requires
        t.wf(),
    ensures
        t.after_check(sample, threshold, now).wf(),
{
}

/// One idle sample together with the moment it was taken.
pub struct Sample {
    pub idle: Option<u64>,
    pub at: Timestamp,
}

/// The tracker after feeding `samples` in order.
pub open spec fn after_checks(t: IdleTracker, samples: Seq<Sample>, threshold: u64) -> IdleTracker
    decreases samples.len(),
{
    if samples.len() == 0 {
        t
    } else {
        after_checks(t, samples.drop_last(), threshold).after_check(
            samples.last().idle,
            threshold,
            samples.last().at,
        )
    }
}

/// How many of `samples`, fed in order, announce the user's return.
pub open spec fn notifications(t: IdleTracker, samples: Seq<Sample>, threshold: u64) -> nat
    decreases samples.len(),
{
    if samples.len() == 0 {
        0
    } else {
        let before = after_checks(t, samples.drop_last(), threshold);
        let fired: nat = if before.resumes(effective_sample(samples.last().idle), threshold) {
            1
        } else {
            0
        };
        notifications(t, samples.drop_last(), threshold) + fired
    }
}

/// Without a reset, a run of checks announces the user's return at most
/// once, and not at all once it has been announced.
pub proof fn notifies_at_most_once(t: IdleTracker, samples: Seq<Sample>, threshold: u64)
    ensures
        notifications(t, samples, threshold) <= 1,
        t.idle_notified ==> notifications(t, samples, threshold) == 0,
        notifications(t, samples, threshold) == 1 ==> after_checks(t, samples, threshold).idle_notified,
        t.idle_notified ==> after_checks(t, samples, threshold).idle_notified,
    decreases samples.len(),
{
    if samples.len() > 0 {
        notifies_at_most_once(t, samples.drop_last(), threshold);
    }
}

/// Idle is confirmed after a run of checks exactly if it was confirmed
/// before or one of the samples reached the threshold.
pub proof fn confirmed_only_at_threshold(t: IdleTracker, samples: Seq<Sample>, threshold: u64)
    ensures
        after_checks(t, samples, threshold).idle_time_reached <==> (t.idle_time_reached || exists|i: int|
            0 <= i < samples.len() && effective_sample(#[trigger] samples[i].idle) >= threshold),
    decreases samples.len(),
{
    if samples.len() > 0 {
        let front = samples.drop_last();
        confirmed_only_at_threshold(t, front, threshold);
        let last = samples.len() - 1;
        if after_checks(t, samples, threshold).idle_time_reached && !t.idle_time_reached {
            if after_checks(t, front, threshold).idle_time_reached {
                let i = choose|i: int|
                    0 <= i < front.len() && effective_sample(#[trigger] front[i].idle) >= threshold;
                assert(samples[i] == front[i]);
            } else {
                assert(effective_sample(samples[last].idle) >= threshold);
            }
        }
        if exists|i: int|
            0 <= i < samples.len() && effective_sample(#[trigger] samples[i].idle) >= threshold {
            let i = choose|i: int|
                0 <= i < samples.len() && effective_sample(#[trigger] samples[i].idle) >= threshold;
            if i < last {
                assert(front[i] == samples[i]);
            }
        }
    }
}

} // verus!
