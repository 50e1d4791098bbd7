//! Core of a desktop time tracker: a tick-driven timer with stopwatch and
//! Pomodoro modes, idle detection, crash-recovery autosave records and tag
//! normalisation. Every function carries a contract that is machine-checked.

pub mod autosave;
pub mod clock;
pub mod idle;
pub mod record;
pub mod tags;
pub mod text;
pub mod timer;
