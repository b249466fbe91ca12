//! Converts a tick counter into a calendar position (year, season, week,
//! month, day, hour, minute, second) under a configurable calendar, and
//! reports which fields changed on each tick.
//!
//! A clock is a `TickTime`. It is built from a tick count and a
//! `TickTimeOptions`, advanced one tick at a time, and read through its
//! accessors. Its calendar position is at every moment the function
//! `TickTimeTypeView::calendar_at` of its tick count and its configuration,
//! so a clock built at a saved tick count shows what a clock ticked up to that
//! count shows.
//!
//! The modules, from the ground up: `sections` finds a day in a list of
//! month or season lengths, `leap` places a day count in a four-year cycle,
//! `calendar` turns a day count into a date, `mode` holds the configuration
//! and its rules, `snapshot` turns a tick count into a full position, `event`
//! tells what a tick changed, and `tick_time` is the clock itself.

pub mod calendar;
pub mod event;
pub mod leap;
pub mod mode;
pub mod sections;
pub mod snapshot;
pub mod tick_time;

pub use crate::event::{TickTimeEvent, TicketTimeEventValue};
pub use crate::mode::{EarthLikeMonthType, TickTimeOptions, TickTimeType};
pub use crate::snapshot::TickTimeValue;
pub use crate::tick_time::TickTime;
