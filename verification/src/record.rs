//! Finished task records, and the rules that a manually entered task must
//! meet before it becomes one.

use vstd::prelude::*;
use vstd::string::*;
use crate::clock::Timestamp;
use crate::tags::{normalize_tags, tag_list_of_tags};
use crate::text::{trim, trimmed};

verus! {

/// A finished task, ready to be handed to storage.
#[derive(Clone, Debug, PartialEq, Eq)]
pub struct TaskRecord {
    pub task_name: String,
    pub tag_list: String,
    pub start_time: Timestamp,
    pub stop_time: Timestamp,
}

/// A task record with its texts as character sequences.
pub struct TaskText {
    pub task_name: Seq<char>,
    pub tag_list: Seq<char>,
    pub start_time: Timestamp,
    pub stop_time: Timestamp,
}

impl View for TaskRecord {
    type V = TaskText;

    open spec fn view(&self) -> TaskText {
        TaskText {
            task_name: self.task_name@,
            tag_list: self.tag_list@,
            start_time: self.start_time,
            stop_time: self.stop_time,
        }
    }
}

/// What is wrong with a manually entered task. The conditions are
/// independent: each is reported whether or not another holds.
#[derive(Clone, Copy, Debug, PartialEq, Eq, Structural)]
pub struct EntryErrors {
    /// The task name is blank.
    pub name_blank: bool,
    /// The start or the stop time could not be read in the active format.
    pub bad_time_format: bool,
    /// Both times were read and the start lies after the stop.
    pub start_after_stop: bool,
    /// A time that was read lies in the future.
    pub in_future: bool,
}

/// Whether a time was read and lies after `now`.
pub open spec fn is_future(t: Option<Timestamp>, now: Timestamp) -> bool {
    match t {
        Some(v) => v.secs > now.secs,
        None => false,
    }
}

/// The errors of an entry. A time that could not be read is `None`.
pub open spec fn entry_errors(
    name: Seq<char>,
    start: Option<Timestamp>,
    stop: Option<Timestamp>,
    now: Timestamp,
) -> EntryErrors {
    EntryErrors {
        name_blank: trim(name).len() == 0,
        bad_time_format: start is None || stop is None,
        start_after_stop: match (start, stop) {
            (Some(a), Some(b)) => a.secs > b.secs,
            _ => false,
        },
        in_future: is_future(start, now) || is_future(stop, now),
    }
}

impl EntryErrors {
    /// No condition is violated.
    pub open spec fn none(self) -> bool {
        !self.name_blank && !self.bad_time_format && !self.start_after_stop && !self.in_future
    }

    /// Whether no condition is violated.
    pub fn is_empty(&self) -> (b: bool)
        ensures
            b == self.none(),
    {
        !self.name_blank && !self.bad_time_format && !self.start_after_stop && !self.in_future
    }
}

fn lies_after(t: Option<Timestamp>, now: Timestamp) -> (b: bool)
    ensures
        b == is_future(t, now),
{
    match t {
        Some(v) => v.is_after(now),
        None => false,
    }
}

/// Checks every rule for a manually entered task and reports all that are
/// violated.
pub fn check_entry(name: &str, start: Option<Timestamp>, stop: Option<Timestamp>, now: Timestamp) -> (e:
    EntryErrors)
    ensures
        e == entry_errors(name@, start, stop, now),
{
    let name_blank = crate::text::is_blank(name);
    let bad_time_format = start.is_none() || stop.is_none();
    let start_after_stop = match (start, stop) {
        (Some(a), Some(b)) => a.is_after(b),
        _ => false,
    };
    let in_future = lies_after(start, now) || lies_after(stop, now);
    EntryErrors { name_blank, bad_time_format, start_after_stop, in_future }
}

/// Turns a manually entered task into a record, or reports every rule that
/// the entry violates. The name is trimmed and the tags are normalised.
pub fn manual_record(
    name: &str,
    tags: &str,
    start: Option<Timestamp>,
    stop: Option<Timestamp>,
    now: Timestamp,
) -> (out: Result<TaskRecord, EntryErrors>)
    ensures
        match out {
            Ok(r) => entry_errors(name@, start, stop, now).none() && start is Some && stop is Some
                && r@ == (TaskText {
                task_name: trim(name@),
                tag_list: tag_list_of_tags(tags@),
                start_time: start->0,
                stop_time: stop->0,
            }),
            Err(e) => e == entry_errors(name@, start, stop, now) && !e.none(),
        },
{
    let errors = check_entry(name, start, stop, now);
    match (start, stop) {
        (Some(a), Some(b)) => {
            if errors.is_empty() {
                Ok(
                    TaskRecord {
                        task_name: trimmed(name),
                        tag_list: normalize_tags(tags),
                        start_time: a,
                        stop_time: b,
                    },
                )
            } else {
                Err(errors)
            }
        },
        _ => Err(errors),
    }
}

} // verus!
