//! A recurring-alarm library: a schedule of weekly class times, a watcher
//! state machine that polls the clock for each entry, and an advisory
//! arbitration flag that lets concurrent watchers share one audio device.
//!
//! - `schedule`: the entries (`Class`) and the table loaded at startup.
//! - `machine`: the watcher's tick-by-tick transition system, and the
//!   proved laws of the arbitration protocol — a matching tick fires and
//!   plays exactly once, a run without a match never plays, an overshoot
//!   retires the watcher, and a cleared flag stays cleared.
//! - `watcher`: the executable watcher (`LocalClock`), each step proved
//!   equal to the transition system.
//! - `dispatch`: one watcher per entry, and a driver that runs them all
//!   against one shared flag.
//! - `input`: how the five text fields of the entry form become an entry.
//!
//! The caller supplies what only the host can decide: the sleep cadence,
//! the result of probing the audio device, and the playback itself.

pub mod dispatch;
pub mod input;
pub mod machine;
mod platform;
pub mod schedule;
pub mod watcher;

pub use dispatch::LocalClockRun;
pub use dispatch::LocalClockTable;
pub use machine::Phase;
pub use machine::ScriptTick;
pub use machine::TickCommand;
pub use machine::TimeSnapshot;
pub use schedule::Class;
pub use schedule::ClassTable;
pub use watcher::LocalClock;
